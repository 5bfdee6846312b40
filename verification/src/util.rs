//! Small verified helpers shared across the crate: string equality and
//! concatenation, contents-preserving copies, and one sequence lemma for
//! the loops that consume a vector front to back.

use vstd::prelude::*;

verus! {

/// Taking the first element of the suffix of `orig` that starts at `j`
/// yields `orig[j]` and leaves the suffix that starts at `j + 1`.
pub proof fn lemma_suffix_step<A>(orig: Seq<A>, j: int)
    requires
        0 <= j < orig.len(),
    ensures
        orig.skip(j).len() == orig.len() - j,
        orig.skip(j)[0] == orig[j],
        orig.skip(j).remove(0) =~= orig.skip(j + 1),
{
    let suffix = orig.skip(j);
    suffix.remove_ensures(0);
    assert forall|k: int| 0 <= k < suffix.remove(0).len() implies suffix.remove(0)[k] == orig.skip(
        j + 1,
    )[k] by {
        assert(suffix.remove(0)[k] == suffix[k + 1]);
        assert(suffix[k + 1] == orig[j + 1 + k]);
        assert(orig.skip(j + 1)[k] == orig[j + 1 + k]);
    }
}

/// True iff the two string slices have equal character contents.
pub fn str_eq(a: &str, b: &str) -> (r: bool)
    ensures
        r == (a@ == b@),
{
    let sa: String = a.to_owned();
    let sb: String = b.to_owned();
    sa == sb
}

/// The concatenation of two string slices as an owned string.
pub fn str_concat(a: &str, b: &str) -> (r: String)
    ensures
        r@ == a@ + b@,
{
    let s: String = a.to_owned();
    s.concat(b)
}

/// A copy of a vector of strings, equal to the original.
pub fn clone_string_vec(v: &Vec<String>) -> (r: Vec<String>)
    ensures
        r@ == v@,
{
    let r = v.clone();
    proof {
        assert forall|i: int| 0 <= i < v@.len() implies r@[i] == v@[i] by {
            assert(cloned::<String>(v@[i], r@[i]));
        }
        assert(v@ =~= r@);
    }
    r
}

/// A copy of an optional string, equal to the original.
pub fn clone_opt_string(v: &Option<String>) -> (r: Option<String>)
    ensures
        r == *v,
{
    match v {
        Some(s) => Some(s.clone()),
        None => None,
    }
}

/// A copy of an optional vector of strings, equal to the original.
pub fn clone_opt_string_vec(v: &Option<Vec<String>>) -> (r: Option<Vec<String>>)
    ensures
        r matches Some(rv) <==> v is Some,
        r matches Some(rv) ==> v matches Some(vv) && rv@ == vv@,
{
    match v {
        Some(s) => Some(clone_string_vec(s)),
        None => None,
    }
}

/// A copy of an optional list of string pairs, equal to the original.
pub fn clone_opt_pairs(v: &Option<Vec<(String, String)>>) -> (r: Option<Vec<(String, String)>>)
    ensures
        r matches Some(rv) <==> v is Some,
        r matches Some(rv) ==> v matches Some(vv) && rv@ == vv@,
{
    match v {
        Some(s) => {
            let mut out: Vec<(String, String)> = Vec::new();
            let mut i: usize = 0;
            while i < s.len()
                invariant
                    0 <= i <= s@.len(),
                    out@ =~= s@.take(i as int),
                decreases s@.len() - i,
            {
                out.push((s[i].0.clone(), s[i].1.clone()));
                proof {
                    assert(out@ =~= s@.take(i as int + 1));
                }
                i = i + 1;
            }
            proof {
                assert(out@ =~= s@);
            }
            Some(out)
        },
        None => None,
    }
}

/// The lowercase form of a string, as `str::to_lowercase` computes it; the
/// result depends on the characters alone.
pub uninterp spec fn lower_of(s: Seq<char>) -> Seq<char>;

/// Relies on str::to_lowercase: the result depends on the characters alone.
#[verifier::external_body]
pub fn lowercase(s: &str) -> (r: String)
    ensures
        r@ == lower_of(s@),
{
    s.to_lowercase()
}

/// Every space replaced by an underscore.
pub open spec fn underscored(s: Seq<char>) -> Seq<char> {
    s.map_values(|c: char| if c == ' ' { '_' } else { c })
}

/// Relies on str::replace with a one-character pattern and a one-character
/// replacement: each matching character is replaced in place.
#[verifier::external_body]
pub fn replace_spaces(s: &str) -> (r: String)
    ensures
        r@ == underscored(s@),
{
    s.replace(' ', "_")
}

} // verus!
