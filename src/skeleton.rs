use vstd::prelude::*;
use crate::text::{contains_text, has_substring};

verus! {

/// The kind of one top-level item of a parsed module.
#[derive(Clone, Copy, Debug, PartialEq, Eq, Structural)]
pub enum ItemKind {
    Import,
    ImportEquals,
    ExportDecl,
    ExportNamed,
    ExportDefaultDecl,
    ExportDefaultExpr,
    ExportAll,
    ExportAssignment,
    NamespaceExport,
    Class,
    Function,
    Variable,
    Interface,
    TypeAlias,
    Enum,
    Module,
    Using,
    Statement,
}

/// One of the six fields of a file skeleton.
#[derive(Clone, Copy, Debug, PartialEq, Eq, Structural)]
pub enum Bucket {
    Imports,
    Exports,
    Functions,
    Interfaces,
    Classes,
    Variables,
}

/// The field that items of kind `k` go to, if any.
pub open spec fn bucket_of(k: ItemKind) -> Option<Bucket> {
    match k {
        ItemKind::Import | ItemKind::ImportEquals => Some(Bucket::Imports),
        ItemKind::ExportDecl | ItemKind::ExportNamed | ItemKind::ExportDefaultDecl
        | ItemKind::ExportDefaultExpr | ItemKind::ExportAll | ItemKind::ExportAssignment
        | ItemKind::NamespaceExport => Some(Bucket::Exports),
        ItemKind::Class => Some(Bucket::Classes),
        ItemKind::Function => Some(Bucket::Functions),
        ItemKind::Variable => Some(Bucket::Variables),
        ItemKind::Interface | ItemKind::TypeAlias | ItemKind::Enum | ItemKind::Module => Some(
            Bucket::Interfaces,
        ),
        ItemKind::Using | ItemKind::Statement => None,
    }
}

impl ItemKind {
    /// The field that items of this kind go to, if any.
    pub fn bucket(&self) -> (r: Option<Bucket>)
        ensures
            r == bucket_of(*self),
    {
        match self {
            ItemKind::Import | ItemKind::ImportEquals => Some(Bucket::Imports),
            ItemKind::ExportDecl | ItemKind::ExportNamed | ItemKind::ExportDefaultDecl
            | ItemKind::ExportDefaultExpr | ItemKind::ExportAll | ItemKind::ExportAssignment
            | ItemKind::NamespaceExport => Some(Bucket::Exports),
            ItemKind::Class => Some(Bucket::Classes),
            ItemKind::Function => Some(Bucket::Functions),
            ItemKind::Variable => Some(Bucket::Variables),
            ItemKind::Interface | ItemKind::TypeAlias | ItemKind::Enum | ItemKind::Module => Some(
                Bucket::Interfaces,
            ),
            ItemKind::Using | ItemKind::Statement => None,
        }
    }
}

/// A module specifier that names a style or image asset: it holds `.css`,
/// `.scss` or `.svg`.
pub open spec fn is_style_source(src: Seq<char>) -> bool {
    has_substring(src, ".css"@) || has_substring(src, ".scss"@) || has_substring(src, ".svg"@)
}

/// Whether an import of `src` is left out of the skeleton. `src` is the
/// specifier as the parser shows it, quotes included.
pub fn is_style_import(src: &str) -> (r: bool)
    ensures
        r == is_style_source(src@),
{
    contains_text(src, ".css") || contains_text(src, ".scss") || contains_text(src, ".svg")
}

/// One top-level item of a module: its kind, its printed form (bodies already
/// emptied) and, for an ES import or an import-equals of an external module,
/// its module specifier.
#[derive(Clone, Debug)]
pub struct TopItem {
    pub kind: ItemKind,
    pub text: String,
    pub source: Option<String>,
}

/// An import (ES or import-equals) of a style asset; such imports are dropped.
pub open spec fn is_dropped_import(it: TopItem) -> bool {
    (it.kind == ItemKind::Import || it.kind == ItemKind::ImportEquals) && it.source is Some
        && is_style_source(it.source->0@)
}

/// The field that the item goes to, if any.
pub open spec fn placement(it: TopItem) -> Option<Bucket> {
    if is_dropped_import(it) {
        None
    } else {
        bucket_of(it.kind)
    }
}

/// The printed items that land in field `b`, in source order.
pub open spec fn routed(items: Seq<TopItem>, b: Bucket) -> Seq<Seq<char>>
    decreases items.len(),
{
    if items.len() == 0 {
        Seq::empty()
    } else {
        let rest = routed(items.drop_last(), b);
        if placement(items.last()) == Some(b) {
            rest.push(items.last().text@)
        } else {
            rest
        }
    }
}

/// The compressed view of one source file: the printed form of each kept
/// top-level construct, by kind, in source order.
#[derive(Clone, Debug)]
pub struct FileSkeleton {
    pub imports: Vec<String>,
    pub exports: Vec<String>,
    pub functions: Vec<String>,
    pub interfaces: Vec<String>,
    pub classes: Vec<String>,
    pub variables: Vec<String>,
}

impl FileSkeleton {
    /// The contents of field `b`.
    pub open spec fn field(&self, b: Bucket) -> Seq<Seq<char>> {
        match b {
            Bucket::Imports => self.imports.deep_view(),
            Bucket::Exports => self.exports.deep_view(),
            Bucket::Functions => self.functions.deep_view(),
            Bucket::Interfaces => self.interfaces.deep_view(),
            Bucket::Classes => self.classes.deep_view(),
            Bucket::Variables => self.variables.deep_view(),
        }
    }

    /// A skeleton with every field empty.
    pub fn empty() -> (r: FileSkeleton)
        ensures
            forall|b: Bucket| r.field(b) == Seq::<Seq<char>>::empty(),
    {
        let r = FileSkeleton {
            imports: Vec::new(),
            exports: Vec::new(),
            functions: Vec::new(),
            interfaces: Vec::new(),
            classes: Vec::new(),
            variables: Vec::new(),
        };
        assert forall|b: Bucket| r.field(b) == Seq::<Seq<char>>::empty() by {
            assert(r.field(b) =~= Seq::<Seq<char>>::empty());
        }
        r
    }

    /// Appends `text` to field `b`.
    pub fn push(&mut self, b: Bucket, text: String)
        ensures
            final(self).field(b) == old(self).field(b).push(text@),
            forall|c: Bucket| c != b ==> final(self).field(c) == old(self).field(c),
    {
        match b {
            Bucket::Imports => self.imports.push(text),
            Bucket::Exports => self.exports.push(text),
            Bucket::Functions => self.functions.push(text),
            Bucket::Interfaces => self.interfaces.push(text),
            Bucket::Classes => self.classes.push(text),
            Bucket::Variables => self.variables.push(text),
        }
        assert(self.field(b) =~= old(self).field(b).push(text@));
    }
}

/// Builds the skeleton of a module from its top-level items in source order:
/// style-asset imports are dropped, bare statements and `using` declarations
/// are skipped, and every other item goes to the field of its kind.
pub fn extract_ir(items: &Vec<TopItem>) -> (sk: FileSkeleton)
    ensures
        forall|b: Bucket| sk.field(b) == routed(items@, b),
{
    let mut sk = FileSkeleton::empty();
    let mut i: usize = 0;
    while i < items.len()
        invariant
            i <= items@.len(),
            forall|b: Bucket| sk.field(b) == routed(items@.subrange(0, i as int), b),
        decreases items@.len() - i,
    {
        let it = &items[i];
        let ghost prefix = items@.subrange(0, i + 1);
        proof {
            assert(prefix.drop_last() =~= items@.subrange(0, i as int));
            assert(prefix.last() == *it);
        }
        let dropped = match (&it.kind, &it.source) {
            (ItemKind::Import, Some(src)) | (ItemKind::ImportEquals, Some(src)) => is_style_import(
                src.as_str(),
            ),
            _ => false,
        };
        assert(dropped == is_dropped_import(*it));
        if !dropped {
            match it.kind.bucket() {
                Some(b) => {
                    sk.push(b, it.text.clone());
                },
                None => {},
            }
        }
        i = i + 1;
    }
    assert(items@.subrange(0, items@.len() as int) =~= items@);
    sk
}

/// The number of items that land in some field.
pub open spec fn placed_count(items: Seq<TopItem>) -> nat
    decreases items.len(),
{
    if items.len() == 0 {
        0
    } else {
        placed_count(items.drop_last()) + if placement(items.last()) is Some {
            1nat
        } else {
            0nat
        }
    }
}

/// The number of entries over all six fields.
pub open spec fn routed_total(items: Seq<TopItem>) -> nat {
    routed(items, Bucket::Imports).len() + routed(items, Bucket::Exports).len() + routed(
        items,
        Bucket::Functions,
    ).len() + routed(items, Bucket::Interfaces).len() + routed(items, Bucket::Classes).len()
        + routed(items, Bucket::Variables).len()
}

/// What the first `k` items put in a field is the start of what all of them put there.
pub proof fn lemma_routed_prefix(items: Seq<TopItem>, k: int, b: Bucket)
    requires
        0 <= k <= items.len(),
    ensures
        routed(items.take(k), b).len() <= routed(items, b).len(),
        routed(items, b).take(routed(items.take(k), b).len() as int) == routed(items.take(k), b),
    decreases items.len(),
{
    if k == items.len() {
        assert(items.take(k) =~= items);
        assert(routed(items, b).take(routed(items, b).len() as int) =~= routed(items, b));
    } else {
        let rest = items.drop_last();
        assert(rest.take(k) =~= items.take(k));
        lemma_routed_prefix(rest, k, b);
        let short = routed(items.take(k), b);
        assert(routed(items, b).take(short.len() as int) =~= routed(rest, b).take(
            short.len() as int,
        ));
    }
}

/// The fields together hold one entry for each kept item.
pub proof fn lemma_routed_total(items: Seq<TopItem>)
    ensures
        routed_total(items) == placed_count(items),
    decreases items.len(),
{
    if items.len() > 0 {
        lemma_routed_total(items.drop_last());
    }
}

/// Every kept top-level item appears in exactly one field of the skeleton: the
/// field of its kind holds its printed form, after the entries of the kept items
/// of that kind before it, and the six fields together hold no other entries
/// than one for each kept item.
pub proof fn lemma_each_item_in_one_field(items: Seq<TopItem>, i: int)
    requires
        0 <= i < items.len(),
        placement(items[i]) is Some,
    ensures
        ({
            let b = placement(items[i])->0;
            let j = routed(items.take(i), b).len() as int;
            j < routed(items, b).len() && routed(items, b)[j] == items[i].text@
        }),
        routed_total(items) == placed_count(items),
{
    let b = placement(items[i])->0;
    let upto = items.take(i + 1);
    assert(upto.drop_last() =~= items.take(i));
    assert(upto.last() == items[i]);
    lemma_routed_prefix(items, i + 1, b);
    let j = routed(items.take(i), b).len() as int;
    assert(routed(items, b).take(j + 1)[j] == routed(items, b)[j]);
    lemma_routed_total(items);
}

/// No import of a style asset reaches the `imports` field: each of its entries is
/// the printed form of an import item (ES or import-equals) whose module
/// specifier, where it has one, holds none of `.css`, `.scss` and `.svg`.
pub proof fn lemma_imports_exclude_style(items: Seq<TopItem>, k: int)
    requires
        0 <= k < routed(items, Bucket::Imports).len(),
    ensures
        exists|i: int|
            0 <= i < items.len() && #[trigger] items[i].text@ == routed(items, Bucket::Imports)[k]
                && (items[i].kind == ItemKind::Import || items[i].kind == ItemKind::ImportEquals)
                && (items[i].source is None || !is_style_source(items[i].source->0@)),
    decreases items.len(),
{
    let rest = items.drop_last();
    if k < routed(rest, Bucket::Imports).len() {
        lemma_imports_exclude_style(rest, k);
        let i = choose|i: int|
            0 <= i < rest.len() && #[trigger] rest[i].text@ == routed(rest, Bucket::Imports)[k]
                && (rest[i].kind == ItemKind::Import || rest[i].kind == ItemKind::ImportEquals)
                && (rest[i].source is None || !is_style_source(rest[i].source->0@));
        assert(items[i] == rest[i]);
    } else {
        let i = items.len() - 1;
        assert(items[i] == items.last());
        assert(items[i].text@ == routed(items, Bucket::Imports)[k]);
    }
}

} // verus!
