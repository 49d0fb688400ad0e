//! Naming-convention translation and the wire identifiers built from it.
//!
//! An operation name is the canonical wire identifier
//! `<namespace>:<package>/<interface>.<function>`, each segment kebab-cased
//! independently; a subject prepends the routing prefix
//! `<domain>.<component>.wrpc.<version>.` to an operation name.  Both strings
//! are cross-process contracts and must match the counterpart byte for byte.

use vstd::prelude::*;
use vstd::string::StringExecFns;

verus! {

/// What `heck`'s kebab-case conversion returns for a given character sequence.
pub uninterp spec fn kebab_of(s: Seq<char>) -> Seq<char>;

/// What `heck`'s UpperCamelCase conversion returns for a given character sequence.
pub uninterp spec fn upper_camel_of(s: Seq<char>) -> Seq<char>;

/// Relies on `heck::ToKebabCase::to_kebab_case` for `str`: the result depends
/// on the input characters alone.
#[verifier::external_body]
pub(crate) fn to_kebab(s: &str) -> (r: String)
    ensures
        r@ == kebab_of(s@),
{
    heck::ToKebabCase::to_kebab_case(s)
}

/// Relies on `heck::ToUpperCamelCase::to_upper_camel_case` for `str`: the
/// result depends on the input characters alone.
#[verifier::external_body]
pub(crate) fn to_upper_camel(s: &str) -> (r: String)
    ensures
        r@ == upper_camel_of(s@),
{
    heck::ToUpperCamelCase::to_upper_camel_case(s)
}

/// The shared prefix of every operation name of one interface.
pub open spec fn operation_prefix_of(ns: Seq<char>, pkg: Seq<char>, iface: Seq<char>) -> Seq<char> {
    kebab_of(ns) + seq![':'] + kebab_of(pkg) + seq!['/'] + kebab_of(iface) + seq!['.']
}

/// The canonical wire identifier of one function of one interface.
pub open spec fn operation_name_of(
    ns: Seq<char>,
    pkg: Seq<char>,
    iface: Seq<char>,
    func: Seq<char>,
) -> Seq<char> {
    operation_prefix_of(ns, pkg, iface) + kebab_of(func)
}

/// The capability-interface identifier: the three path segments
/// upper-camel-cased and concatenated with no delimiter.
pub open spec fn trait_name_of(ns: Seq<char>, pkg: Seq<char>, iface: Seq<char>) -> Seq<char> {
    upper_camel_of(ns) + upper_camel_of(pkg) + upper_camel_of(iface)
}

/// The fixed transport tag that stands between the component identity and the
/// protocol version in every subject.
pub open spec fn wrpc_tag() -> Seq<char> {
    seq!['w', 'r', 'p', 'c']
}

/// The routing prefix a subject prepends to an operation name.
pub open spec fn subject_prefix_of(
    domain: Seq<char>,
    component: Seq<char>,
    version: Seq<char>,
) -> Seq<char> {
    domain + seq!['.'] + component + seq!['.'] + wrpc_tag() + seq!['.'] + version + seq!['.']
}

/// The transport-level address of one exported function.
pub open spec fn subject_of(
    domain: Seq<char>,
    component: Seq<char>,
    version: Seq<char>,
    operation: Seq<char>,
) -> Seq<char> {
    subject_prefix_of(domain, component, version) + operation
}

/// Builds `<ns>:<pkg>/<iface>.<func>`, each segment kebab-cased independently.
pub fn operation_name(ns: &str, pkg: &str, iface: &str, func: &str) -> (r: String)
    ensures
        r@ == operation_name_of(ns@, pkg@, iface@, func@),
{
    let mut out = to_kebab(ns);
    out.append(":");
    let pkg_k = to_kebab(pkg);
    out.append(pkg_k.as_str());
    out.append("/");
    let iface_k = to_kebab(iface);
    out.append(iface_k.as_str());
    out.append(".");
    let func_k = to_kebab(func);
    out.append(func_k.as_str());
    proof {
        reveal_strlit(":");
        reveal_strlit("/");
        reveal_strlit(".");
        assert(":"@ =~= seq![':']);
        assert("/"@ =~= seq!['/']);
        assert("."@ =~= seq!['.']);
        assert(out@ =~= operation_name_of(ns@, pkg@, iface@, func@));
    }
    out
}

/// Builds the capability-interface identifier for one interface path.
pub fn capability_trait_name(ns: &str, pkg: &str, iface: &str) -> (r: String)
    ensures
        r@ == trait_name_of(ns@, pkg@, iface@),
{
    let mut out = to_upper_camel(ns);
    let pkg_c = to_upper_camel(pkg);
    out.append(pkg_c.as_str());
    let iface_c = to_upper_camel(iface);
    out.append(iface_c.as_str());
    proof {
        assert(out@ =~= trait_name_of(ns@, pkg@, iface@));
    }
    out
}

/// Builds `<domain>.<component>.wrpc.<version>.<operation>`.
pub fn subject_for(domain: &str, component: &str, version: &str, operation: &str) -> (r: String)
    ensures
        r@ == subject_of(domain@, component@, version@, operation@),
{
    let mut out = domain.to_owned();
    out.append(".");
    out.append(component);
    out.append(".");
    out.append("wrpc");
    out.append(".");
    out.append(version);
    out.append(".");
    out.append(operation);
    proof {
        reveal_strlit(".");
        reveal_strlit("wrpc");
        assert("."@ =~= seq!['.']);
        assert("wrpc"@ =~= wrpc_tag());
        assert(out@ =~= subject_of(domain@, component@, version@, operation@));
    }
    out
}

/// Appending to a common prefix is injective in the suffix.
proof fn lemma_append_cancel_left(p: Seq<char>, a: Seq<char>, b: Seq<char>)
    requires
        p + a == p + b,
    ensures
        a == b,
{
    assert((p + a).len() == p.len() + a.len());
    assert((p + b).len() == p.len() + b.len());
    assert forall|i: int| 0 <= i < a.len() implies a[i] == b[i] by {
        assert((p + a)[p.len() + i] == a[i]);
        assert((p + b)[p.len() + i] == b[i]);
    }
    assert(a =~= b);
}

/// Uniqueness of operation names within one interface: two functions whose
/// kebab-cased names differ never share an operation name.  (Two distinct
/// names that kebab-case alike, such as `fooBar` and `foo-bar`, collide by
/// construction and are left out here.)
pub proof fn lemma_operation_names_distinct(
    ns: Seq<char>,
    pkg: Seq<char>,
    iface: Seq<char>,
    f1: Seq<char>,
    f2: Seq<char>,
)
    requires
        kebab_of(f1) != kebab_of(f2),
    ensures
        operation_name_of(ns, pkg, iface, f1) != operation_name_of(ns, pkg, iface, f2),
{
    if operation_name_of(ns, pkg, iface, f1) == operation_name_of(ns, pkg, iface, f2) {
        lemma_append_cancel_left(operation_prefix_of(ns, pkg, iface), kebab_of(f1), kebab_of(f2));
    }
}

/// Uniqueness of subjects under one routing prefix: distinct operation names
/// give distinct subjects.
pub proof fn lemma_subjects_distinct(
    domain: Seq<char>,
    component: Seq<char>,
    version: Seq<char>,
    op1: Seq<char>,
    op2: Seq<char>,
)
    requires
        op1 != op2,
    ensures
        subject_of(domain, component, version, op1) != subject_of(domain, component, version, op2),
{
    if subject_of(domain, component, version, op1) == subject_of(domain, component, version, op2) {
        lemma_append_cancel_left(subject_prefix_of(domain, component, version), op1, op2);
    }
}

} // verus!
