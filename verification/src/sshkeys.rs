//! Discovery of the user's local SSH keys: which directory entries count as
//! private keys, how a key's algorithm is classified from its file name, and
//! the name-ordering of the final listing. Reading the directory, the `.pub`
//! files, and probing for a passphrase with the external key tool are I/O
//! and happen outside this crate; the probe is a best-effort heuristic, not
//! a cryptographic check.

use vstd::prelude::*;
use vstd::string::*;
use vstd::seq_lib::group_to_multiset_ensures;
use vstd::multiset::Multiset;
use crate::strutil::{
    contains_spec, ends_with_spec, starts_with_spec, str_contains, str_ends_with, str_starts_with,
};

verus! {

/// One discovered key, as shown to the user.
pub struct SshKeyInfo {
    pub name: String,
    pub path: String,
    pub key_type: String,
    pub public_key: String,
    pub has_passphrase: bool,
}

/// The algorithm class read from a key file's name.
pub open spec fn key_type_spec(name: Seq<char>) -> Seq<char> {
    if contains_spec(name, "ed25519"@) {
        "ed25519"@
    } else if contains_spec(name, "rsa"@) {
        "rsa"@
    } else if contains_spec(name, "ecdsa"@) {
        "ecdsa"@
    } else {
        "unknown"@
    }
}

/// A directory entry that counts as a private key: named `id_*` and not a
/// `.pub` file.
pub open spec fn is_private_key_name(name: Seq<char>) -> bool {
    starts_with_spec(name, "id_"@) && !ends_with_spec(name, ".pub"@)
}

/// Builds the listing entry for one directory entry, or nothing when the
/// entry is not a private key file. `public_key` is the paired `.pub` file's
/// contents and `has_passphrase` the external probe's verdict, both read by
/// the caller.
pub fn ssh_key_entry(name: String, path: String, public_key: String, has_passphrase: bool) -> (r:
    Option<SshKeyInfo>)
    ensures
        r matches Some(k) ==> (is_private_key_name(name@) && k.name@ == name@ && k.path@ == path@
            && k.key_type@ == key_type_spec(name@) && k.public_key@ == public_key@
            && k.has_passphrase == has_passphrase),
        r is None <==> !is_private_key_name(name@),
{
    if !str_starts_with(name.as_str(), "id_") || str_ends_with(name.as_str(), ".pub") {
        return None;
    }
    let key_type = if str_contains(name.as_str(), "ed25519") {
        String::from_str("ed25519")
    } else if str_contains(name.as_str(), "rsa") {
        String::from_str("rsa")
    } else if str_contains(name.as_str(), "ecdsa") {
        String::from_str("ecdsa")
    } else {
        String::from_str("unknown")
    };
    Some(SshKeyInfo { name, path, key_type, public_key, has_passphrase })
}

/// Lexicographic order on names, by code point.
pub open spec fn name_le(a: Seq<char>, b: Seq<char>) -> bool
    decreases a.len(),
{
    if a.len() == 0 {
        true
    } else if b.len() == 0 {
        false
    } else if a[0] != b[0] {
        (a[0] as u32) < (b[0] as u32)
    } else {
        name_le(a.drop_first(), b.drop_first())
    }
}

proof fn lemma_name_le_refl(a: Seq<char>)
    ensures
        name_le(a, a),
    decreases a.len(),
{
    if a.len() > 0 {
        lemma_name_le_refl(a.drop_first());
    }
}

proof fn lemma_name_le_total(a: Seq<char>, b: Seq<char>)
    ensures
        name_le(a, b) || name_le(b, a),
    decreases a.len(),
{
    if a.len() > 0 && b.len() > 0 {
        if a[0] == b[0] {
            lemma_name_le_total(a.drop_first(), b.drop_first());
        } else {
            vstd::utf8::char_u32_cast(a[0], a[0] as u32);
            vstd::utf8::char_u32_cast(b[0], b[0] as u32);
        }
    }
}

proof fn lemma_name_le_trans(a: Seq<char>, b: Seq<char>, c: Seq<char>)
    requires
        name_le(a, b),
        name_le(b, c),
    ensures
        name_le(a, c),
    decreases a.len(),
{
    if a.len() > 0 && b.len() > 0 && c.len() > 0 && a[0] == b[0] && b[0] == c[0] {
        lemma_name_le_trans(a.drop_first(), b.drop_first(), c.drop_first());
    }
}

proof fn lemma_name_le_skip(a: Seq<char>, b: Seq<char>, i: int)
    requires
        0 <= i <= a.len(),
        i <= b.len(),
        forall|k: int| 0 <= k < i ==> a[k] == b[k],
    ensures
        name_le(a, b) == name_le(a.skip(i), b.skip(i)),
    decreases i,
{
    if i > 0 {
        assert(a.len() > 0 && b.len() > 0 && a[0] == b[0]);
        lemma_name_le_skip(a.drop_first(), b.drop_first(), i - 1);
        assert(a.drop_first().skip(i - 1) =~= a.skip(i));
        assert(b.drop_first().skip(i - 1) =~= b.skip(i));
    } else {
        assert(a.skip(0) =~= a);
        assert(b.skip(0) =~= b);
    }
}

/// Compares two names in the listing order.
pub fn name_le_exec(a: &str, b: &str) -> (r: bool)
    ensures
        r == name_le(a@, b@),
{
    let na = a.unicode_len();
    let nb = b.unicode_len();
    let mut i: usize = 0;
    while i < na && i < nb && a.get_char(i) == b.get_char(i)
        invariant
            i <= na,
            i <= nb,
            na == a@.len(),
            nb == b@.len(),
            forall|k: int| 0 <= k < i ==> a@[k] == b@[k],
        decreases na - i,
    {
        i += 1;
    }
    proof {
        lemma_name_le_skip(a@, b@, i as int);
    }
    if i == na {
        true
    } else if i == nb {
        false
    } else {
        let ca = a.get_char(i);
        let cb = b.get_char(i);
        proof {
            assert(a@.skip(i as int)[0] == a@[i as int]);
            assert(b@.skip(i as int)[0] == b@[i as int]);
        }
        (ca as u32) < (cb as u32)
    }
}

/// Sorts a listing by key name: the result is ordered by `name_le` and is a
/// rearrangement of the input, nothing added and nothing lost.
pub fn sort_keys_by_name(keys: Vec<SshKeyInfo>) -> (r: Vec<SshKeyInfo>)
    ensures
        r@.len() == keys@.len(),
        r@.to_multiset() == keys@.to_multiset(),
        forall|i: int, j: int|
            0 <= i < j < r@.len() ==> name_le(#[trigger] r@[i].name@, #[trigger] r@[j].name@),
{
    broadcast use group_to_multiset_ensures;

    let mut rem = keys;
    let mut out: Vec<SshKeyInfo> = Vec::new();
    while rem.len() > 0
        invariant
            out@.len() + rem@.len() == keys@.len(),
            out@.to_multiset().add(rem@.to_multiset()) == keys@.to_multiset(),
            forall|i: int, j: int|
                0 <= i < j < out@.len() ==> name_le(
                    #[trigger] out@[i].name@,
                    #[trigger] out@[j].name@,
                ),
            forall|k: int, j: int|
                0 <= k < out@.len() && 0 <= j < rem@.len() ==> name_le(
                    #[trigger] out@[k].name@,
                    #[trigger] rem@[j].name@,
                ),
        decreases rem@.len(),
    {
        let mut m: usize = 0;
        let mut t: usize = 1;
        proof {
            lemma_name_le_refl(rem@[0].name@);
        }
        while t < rem.len()
            invariant
                m < t <= rem@.len(),
                forall|j: int| 0 <= j < t ==> name_le(rem@[m as int].name@, #[trigger] rem@[j].name@),
            decreases rem@.len() - t,
        {
            if !name_le_exec(rem[m].name.as_str(), rem[t].name.as_str()) {
                proof {
                    lemma_name_le_total(rem@[m as int].name@, rem@[t as int].name@);
                    assert forall|j: int| 0 <= j < t implies name_le(
                        rem@[t as int].name@,
                        rem@[j].name@,
                    ) by {
                        lemma_name_le_trans(
                            rem@[t as int].name@,
                            rem@[m as int].name@,
                            rem@[j].name@,
                        );
                    }
                    lemma_name_le_refl(rem@[t as int].name@);
                }
                m = t;
            } else {
                proof {
                    lemma_name_le_refl(rem@[m as int].name@);
                }
            }
            t += 1;
        }
        proof {
            lemma_name_le_refl(rem@[m as int].name@);
        }
        let ghost rem0 = rem@;
        let ghost out0 = out@;
        let v = rem.remove(m);
        out.push(v);
        proof {
            broadcast use vstd::multiset::group_multiset_axioms;

            assert(rem0.contains(rem0[m as int]));
            assert(rem@ =~= rem0.remove(m as int));
            assert(out@ == out0.push(v));
            vstd::seq_lib::to_multiset_build(out0, v);
            vstd::seq_lib::to_multiset_remove(rem0, m as int);
            vstd::seq_lib::to_multiset_contains(rem0, rem0[m as int]);
            assert(out@.to_multiset().add(rem@.to_multiset()) =~= keys@.to_multiset());
            assert forall|k: int, j: int|
                0 <= k < out@.len() && 0 <= j < rem@.len() implies name_le(
                #[trigger] out@[k].name@,
                #[trigger] rem@[j].name@,
            ) by {
                let j0 = if j < m as int {
                    j
                } else {
                    j + 1
                };
                assert(rem@[j] == rem0[j0]);
                if k < out0.len() {
                    assert(out@[k] == out0[k]);
                } else {
                    assert(out@[k] == rem0[m as int]);
                }
            }
        }
    }
    proof {
        broadcast use vstd::multiset::group_multiset_axioms;

        assert forall|x: SshKeyInfo| rem@.to_multiset().count(x) == 0 by {
            vstd::seq_lib::to_multiset_contains(rem@, x);
        }
        assert(rem@.to_multiset() =~= Multiset::<SshKeyInfo>::empty());
        assert(out@.to_multiset().add(rem@.to_multiset()) =~= out@.to_multiset());
    }
    out
}

} // verus!
