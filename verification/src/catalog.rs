//! The type catalog scraper: record, variant and alias declarations, as the
//! base binding generator declared them, turned into three name-keyed
//! catalogs.
//!
//! Every declared type appears exactly once in its catalog, keyed by its
//! simple name (a later declaration of the same name overrides an earlier
//! one).  An alias whose name coincides with a record or variant is dropped
//! from the emitted type list, to avoid duplicate definitions.

use vstd::prelude::*;
use crate::model::NamedType;
use crate::model::WitType;
use crate::table::NamedTable;

verus! {

/// A record declaration: the qualified path it was declared under and its
/// fields in declared order.  Its simple name is the catalog key.
#[derive(Debug, PartialEq, Eq)]
pub struct RecordDef {
    pub path: Vec<String>,
    pub fields: Vec<NamedType>,
}

/// One case of a variant declaration: its name and optional payload type.
#[derive(Debug, PartialEq, Eq)]
pub struct VariantCase {
    pub name: String,
    pub payload: Option<WitType>,
}

/// A variant (tagged-union) declaration.
#[derive(Debug, PartialEq, Eq)]
pub struct VariantDef {
    pub path: Vec<String>,
    pub cases: Vec<VariantCase>,
}

/// A plain alias declaration: its qualified path and the type it stands for.
#[derive(Debug, PartialEq, Eq)]
pub struct AliasDef {
    pub path: Vec<String>,
    pub target: WitType,
}

/// One declaration scraped from the base binding generator's output.
#[derive(Debug, PartialEq, Eq)]
pub enum TypeDecl {
    Record(String, RecordDef),
    Variant(String, VariantDef),
    Alias(String, AliasDef),
}

/// The three name-keyed catalogs.
pub struct TypeCatalog {
    pub records: NamedTable<RecordDef>,
    pub variants: NamedTable<VariantDef>,
    pub aliases: NamedTable<AliasDef>,
}

impl TypeCatalog {
    /// Each catalog keys every type exactly once.
    pub open spec fn wf(self) -> bool {
        self.records.wf() && self.variants.wf() && self.aliases.wf()
    }
}

/// The record catalog a declaration sequence denotes.
pub open spec fn records_of(decls: Seq<TypeDecl>) -> Map<Seq<char>, RecordDef>
    decreases decls.len(),
{
    if decls.len() == 0 {
        Map::empty()
    } else {
        let m = records_of(decls.drop_last());
        match decls.last() {
            TypeDecl::Record(n, d) => m.insert(n@, d),
            _ => m,
        }
    }
}

/// The variant catalog a declaration sequence denotes.
pub open spec fn variants_of(decls: Seq<TypeDecl>) -> Map<Seq<char>, VariantDef>
    decreases decls.len(),
{
    if decls.len() == 0 {
        Map::empty()
    } else {
        let m = variants_of(decls.drop_last());
        match decls.last() {
            TypeDecl::Variant(n, d) => m.insert(n@, d),
            _ => m,
        }
    }
}

/// The alias catalog a declaration sequence denotes.
pub open spec fn aliases_of(decls: Seq<TypeDecl>) -> Map<Seq<char>, AliasDef>
    decreases decls.len(),
{
    if decls.len() == 0 {
        Map::empty()
    } else {
        let m = aliases_of(decls.drop_last());
        match decls.last() {
            TypeDecl::Alias(n, d) => m.insert(n@, d),
            _ => m,
        }
    }
}

/// Sorts the scraped declarations into the three catalogs.
#[verifier::loop_isolation(false)]
pub fn scrape_type_catalogs(decls: Vec<TypeDecl>) -> (r: TypeCatalog)
    ensures
        r.wf(),
        r.records@ == records_of(decls@),
        r.variants@ == variants_of(decls@),
        r.aliases@ == aliases_of(decls@),
{
    let ghost all = decls@;
    let ghost mut done: Seq<TypeDecl> = Seq::empty();
    let mut rest = decls;
    let mut records: NamedTable<RecordDef> = NamedTable::new();
    let mut variants: NamedTable<VariantDef> = NamedTable::new();
    let mut aliases: NamedTable<AliasDef> = NamedTable::new();
    while rest.len() > 0
        invariant
            all == done + rest@,
            records.wf() && variants.wf() && aliases.wf(),
            records@ == records_of(done),
            variants@ == variants_of(done),
            aliases@ == aliases_of(done),
        decreases rest@.len(),
    {
        let d = rest.remove(0);
        proof {
            assert(done.push(d).drop_last() =~= done);
            assert(all =~= done.push(d) + rest@);
            done = done.push(d);
        }
        match d {
            TypeDecl::Record(n, def) => records.insert(n, def),
            TypeDecl::Variant(n, def) => variants.insert(n, def),
            TypeDecl::Alias(n, def) => aliases.insert(n, def),
        }
    }
    proof {
        assert(done =~= all);
    }
    TypeCatalog { records, variants, aliases }
}

/// The names of the aliases worth emitting: those that do not coincide with a
/// record or variant already in the catalogs, in catalog order.
pub open spec fn emitted_alias_names_of(
    aliases: Seq<(String, AliasDef)>,
    records: Map<Seq<char>, RecordDef>,
    variants: Map<Seq<char>, VariantDef>,
) -> Seq<Seq<char>>
    decreases aliases.len(),
{
    if aliases.len() == 0 {
        Seq::empty()
    } else {
        let rest = emitted_alias_names_of(aliases.drop_last(), records, variants);
        let n = aliases.last().0@;
        if records.dom().contains(n) || variants.dom().contains(n) {
            rest
        } else {
            rest.push(n)
        }
    }
}

/// Plans the emitted type list: every alias whose name names no record and no
/// variant, in catalog order.  The dropped ones would only duplicate a
/// definition emitted from the record or variant catalog.
#[verifier::loop_isolation(false)]
pub fn plan_emitted_alias_names(cat: &TypeCatalog) -> (r: Vec<String>)
    requires
        cat.wf(),
    ensures
        r@.map_values(|s: String| s@) == emitted_alias_names_of(
            cat.aliases.entries_seq(),
            cat.records@,
            cat.variants@,
        ),
        forall|i: int| 0 <= i < r@.len() ==> cat.aliases@.dom().contains(#[trigger] r@[i]@),
{
    let mut out: Vec<String> = Vec::new();
    let n = cat.aliases.len();
    let mut i: usize = 0;
    while i < n
        invariant
            i <= n,
            out@.map_values(|s: String| s@) == emitted_alias_names_of(
                cat.aliases.entries_seq().take(i as int),
                cat.records@,
                cat.variants@,
            ),
            forall|k: int| 0 <= k < out@.len() ==> cat.aliases@.dom().contains(#[trigger] out@[k]@),
        decreases n - i,
    {
        let entry = cat.aliases.entry_at(i);
        proof {
            let pfx = cat.aliases.entries_seq().take(i as int + 1);
            assert(pfx.drop_last() =~= cat.aliases.entries_seq().take(i as int));
            crate::table::lemma_map_holds_entry(cat.aliases.entries_seq(), i as int);
        }
        if !cat.records.contains_key(entry.0.as_str()) && !cat.variants.contains_key(
            entry.0.as_str(),
        ) {
            out.push(entry.0.clone());
            proof {
                assert(out@.map_values(|s: String| s@) =~= emitted_alias_names_of(
                    cat.aliases.entries_seq().take(i as int + 1),
                    cat.records@,
                    cat.variants@,
                ));
            }
        } else {
            proof {
                assert(out@.map_values(|s: String| s@) =~= emitted_alias_names_of(
                    cat.aliases.entries_seq().take(i as int + 1),
                    cat.records@,
                    cat.variants@,
                ));
            }
        }
        i = i + 1;
    }
    proof {
        assert(cat.aliases.entries_seq().take(n as int) =~= cat.aliases.entries_seq());
    }
    out
}

} // verus!
