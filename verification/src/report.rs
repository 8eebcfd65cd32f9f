use vstd::prelude::*;

use crate::config::EnvVarEntry;

verus! {

/// Whether `key` starts with `prefix` (exact, case-sensitive).
pub open spec fn has_prefix(key: Seq<char>, prefix: Seq<char>) -> bool {
    prefix.len() <= key.len() && key.subrange(0, prefix.len() as int) == prefix
}

/// Decides `has_prefix` on string slices.
pub fn starts_with_prefix(key: &str, prefix: &str) -> (r: bool)
    ensures
        r == has_prefix(key@, prefix@),
{
    let klen = key.unicode_len();
    let plen = prefix.unicode_len();
    if plen > klen {
        return false;
    }
    let mut i: usize = 0;
    while i < plen
        invariant
            i <= plen,
            plen == prefix@.len(),
            klen == key@.len(),
            plen <= klen,
            forall|j: int| 0 <= j < i ==> key@[j] == prefix@[j],
        decreases plen - i,
    {
        let kc = key.get_char(i);
        let pc = prefix.get_char(i);
        if kc != pc {
            proof {
                let sub = key@.subrange(0, plen as int);
                assert(sub[i as int] == key@[i as int]);
                assert(sub != prefix@) by {
                    if sub == prefix@ {
                        assert(sub[i as int] == prefix@[i as int]);
                    }
                }
            }
            return false;
        }
        i = i + 1;
    }
    proof {
        assert(key@.subrange(0, plen as int) =~= prefix@);
    }
    true
}

/// One `KEY=VALUE` line, newline-terminated, for each retained entry, in
/// the captured enumeration order; entries without the prefix leave no
/// trace. No sorting, escaping or truncation.
pub open spec fn env_lines(vars: Seq<EnvVarEntry>, prefix: Seq<char>) -> Seq<char>
    decreases vars.len(),
{
    if vars.len() == 0 {
        Seq::empty()
    } else {
        env_lines(vars.drop_last(), prefix) + if has_prefix(vars.last().key@, prefix) {
            vars.last().key@ + "="@ + vars.last().value@ + "\n"@
        } else {
            Seq::<char>::empty()
        }
    }
}

/// The full environment block: a header line, then the retained lines.
pub open spec fn rendered_env(vars: Seq<EnvVarEntry>, prefix: Seq<char>) -> Seq<char> {
    "rtx environment variables:\n"@ + env_lines(vars, prefix)
}

/// Renders the environment block: a header, then one `KEY=VALUE` line for
/// every entry whose key starts with `prefix`, preserving the captured
/// order. Pure: depends only on its inputs.
pub fn render(prefix: &str, vars: &Vec<EnvVarEntry>) -> (out: String)
    ensures
        out@ == rendered_env(vars@, prefix@),
{
    let mut out = String::from_str("rtx environment variables:\n");
    let n = vars.len();
    let mut i: usize = 0;
    while i < n
        invariant
            i <= n,
            n == vars@.len(),
            out@ == rendered_env(vars@.take(i as int), prefix@),
        decreases n - i,
    {
        let e = &vars[i];
        if starts_with_prefix(e.key.as_str(), prefix) {
            out.append(e.key.as_str());
            out.append("=");
            out.append(e.value.as_str());
            out.append("\n");
        }
        proof {
            assert(vars@.take(i as int + 1).drop_last() =~= vars@.take(i as int));
            assert(vars@.take(i as int + 1).last() == vars@[i as int]);
            assert(out@ =~= rendered_env(vars@.take(i as int + 1), prefix@));
        }
        i = i + 1;
    }
    proof {
        assert(vars@.take(vars@.len() as int) =~= vars@);
    }
    out
}

} // verus!
