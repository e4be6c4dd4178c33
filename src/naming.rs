//! Derivation of an output module's name from a namespace URI.
use vstd::prelude::*;
use crate::text::{has_at, push_char, str_eq};

verus! {

/// The one namespace whose module name does not follow the generic rule.
pub open spec fn xmldsig_uri() -> Seq<char> {
    "http://www.w3.org/2000/09/xmldsig#"@
}

/// The fixed module name of the xmldsig namespace.
pub open spec fn xmldsig_module() -> Seq<char> {
    "www_w3_org_2000_09_xmldsig"@
}

pub open spec fn urn_prefix() -> Seq<char> {
    "urn:"@
}

/// `s` with every leading `urn:` removed.
pub open spec fn trim_urn(s: Seq<char>) -> Seq<char>
    decreases s.len(),
{
    if s.len() >= 4 && seq_has_urn(s) {
        trim_urn(s.subrange(4, s.len() as int))
    } else {
        s
    }
}

pub open spec fn seq_has_urn(s: Seq<char>) -> bool {
    crate::text::seq_has_at(s, 0, urn_prefix())
}

/// `s` with each `:` turned into `_` and each `#` removed.
pub open spec fn clean(s: Seq<char>) -> Seq<char>
    decreases s.len(),
{
    if s.len() == 0 {
        Seq::empty()
    } else {
        let p = clean(s.drop_last());
        if s.last() == ':' {
            p.push('_')
        } else if s.last() == '#' {
            p
        } else {
            p.push(s.last())
        }
    }
}

/// The module name derived from a namespace URI.
pub open spec fn module_name_of(ns: Seq<char>) -> Seq<char> {
    if ns == xmldsig_uri() {
        xmldsig_module()
    } else {
        clean(trim_urn(ns))
    }
}

proof fn lemma_trim_urn_skip(s: Seq<char>, i: int)
    requires
        0 <= i <= s.len(),
        i + 4 <= s.len(),
        seq_has_urn(s.subrange(i, s.len() as int)),
    ensures
        trim_urn(s.subrange(i, s.len() as int)) == trim_urn(s.subrange(i + 4, s.len() as int)),
{
    let t = s.subrange(i, s.len() as int);
    assert(t.subrange(4, t.len() as int) == s.subrange(i + 4, s.len() as int));
}

proof fn lemma_clean_step(s: Seq<char>, i: int, j: int)
    requires
        0 <= i <= j < s.len(),
    ensures
        s.subrange(i, j + 1).drop_last() == s.subrange(i, j),
        s.subrange(i, j + 1).last() == s[j],
{
}

/// Maps a namespace URI to the name of the module generated for it: leading
/// `urn:` prefixes are dropped, `:` becomes `_` and `#` is removed, except
/// for the xmldsig namespace, which has a fixed name.
pub fn namespace_to_module_name(ns: &str) -> (r: String)
    ensures
        r@ == module_name_of(ns@),
{
    if str_eq(ns, "http://www.w3.org/2000/09/xmldsig#") {
        return String::from_str("www_w3_org_2000_09_xmldsig");
    }
    proof {
        reveal_strlit("urn:");
    }
    let n = ns.unicode_len();
    let mut i: usize = 0;
    assert(ns@.subrange(0, n as int) == ns@);
    while n >= 4 && i <= n - 4 && has_at(ns, i, "urn:")
        invariant
            n == ns@.len(),
            i <= n,
            trim_urn(ns@) == trim_urn(ns@.subrange(i as int, n as int)),
        decreases n - i,
    {
        proof {
            assert(seq_has_urn(ns@.subrange(i as int, n as int))) by {
                reveal_strlit("urn:");
                let t = ns@.subrange(i as int, n as int);
                assert(urn_prefix().len() == 4);
                assert(crate::text::seq_has_at(ns@, i as int, urn_prefix()));
                assert(t.subrange(0, 4) =~= ns@.subrange(i as int, i + 4));
            }
            lemma_trim_urn_skip(ns@, i as int);
        }
        i = i + 4;
    }
    proof {
        let t = ns@.subrange(i as int, n as int);
        if t.len() >= 4 && seq_has_urn(t) {
            assert(t.subrange(0, 4) == ns@.subrange(i as int, i + 4));
            assert(false);
        }
        assert(trim_urn(t) == t);
    }
    let mut out = String::new();
    let mut j: usize = i;
    while j < n
        invariant
            n == ns@.len(),
            i <= j <= n,
            out@ == clean(ns@.subrange(i as int, j as int)),
        decreases n - j,
    {
        let c = ns.get_char(j);
        proof {
            lemma_clean_step(ns@, i as int, j as int);
        }
        if c == ':' {
            push_char(&mut out, '_');
        } else if c != '#' {
            push_char(&mut out, c);
        }
        j = j + 1;
    }
    out
}

/// A cleaned sequence holds no `:` and no `#`.
proof fn lemma_clean_plain(s: Seq<char>)
    ensures
        forall|k: int| 0 <= k < clean(s).len() ==> clean(s)[k] != ':' && clean(s)[k] != '#',
    decreases s.len(),
{
    if s.len() > 0 {
        lemma_clean_plain(s.drop_last());
        let p = clean(s.drop_last());
        assert(forall|k: int| 0 <= k < p.len() ==> p[k] != ':' && p[k] != '#');
        if s.last() == ':' {
            assert(clean(s) == p.push('_'));
        } else if s.last() == '#' {
            assert(clean(s) == p);
        } else {
            assert(clean(s) == p.push(s.last()));
        }
    }
}

/// A sequence without `:` and `#` is left as it is by `clean`.
proof fn lemma_clean_fixed(s: Seq<char>)
    requires
        forall|k: int| 0 <= k < s.len() ==> s[k] != ':' && s[k] != '#',
    ensures
        clean(s) == s,
    decreases s.len(),
{
    if s.len() > 0 {
        lemma_clean_fixed(s.drop_last());
        assert(s.drop_last().push(s.last()) == s);
    }
}

/// Deriving a module name from a name that is already a module name gives it
/// back unchanged.
pub proof fn lemma_module_name_idempotent(ns: Seq<char>)
    ensures
        module_name_of(module_name_of(ns)) == module_name_of(ns),
{
    reveal_strlit("http://www.w3.org/2000/09/xmldsig#");
    reveal_strlit("www_w3_org_2000_09_xmldsig");
    reveal_strlit("urn:");
    let m = module_name_of(ns);
    if ns != xmldsig_uri() {
        lemma_clean_plain(trim_urn(ns));
    }
    assert(forall|k: int| 0 <= k < m.len() ==> m[k] != ':' && m[k] != '#');
    assert(m != xmldsig_uri()) by {
        if m == xmldsig_uri() {
            assert(m[33] == '#');
        }
    }
    if m.len() >= 4 && seq_has_urn(m) {
        assert(m.subrange(0, 4)[3] == ':');
        assert(false);
    }
    assert(trim_urn(m) == m);
    lemma_clean_fixed(m);
}

} // verus!
