use vstd::prelude::*;
use vstd::string::*;

verus! {

/// A lowercase ASCII letter, the only characters a DID method name may use.
pub open spec fn is_lower_alpha(c: char) -> bool {
    'a' <= c && c <= 'z'
}

/// A character allowed inside the method-specific part of a DID.
pub open spec fn is_did_id_char(c: char) -> bool {
    ||| is_lower_alpha(c)
    ||| 'A' <= c && c <= 'Z'
    ||| '0' <= c && c <= '9'
    ||| c == '.'
    ||| c == '_'
    ||| c == ':'
    ||| c == '%'
    ||| c == '-'
}

/// A character allowed as the final character of a DID: as inside the
/// method-specific part, except `:` and `%`.
pub open spec fn is_did_id_last_char(c: char) -> bool {
    is_did_id_char(c) && c != ':' && c != '%'
}

/// Position of the first `:` at or after `i`, or the length when none follows.
pub open spec fn first_colon_from(s: Seq<char>, i: int) -> int
    decreases s.len() - i when 0 <= i <= s.len()
{
    if i >= s.len() {
        s.len() as int
    } else if s[i] == ':' {
        i
    } else {
        first_colon_from(s, i + 1)
    }
}

/// Syntax of a decentralized identifier: `did:` followed by a non-empty
/// lowercase method name, `:`, and a non-empty method-specific part whose
/// characters come from a fixed set and whose final character is neither
/// `:` nor `%`; at most 2048 characters in all.
pub open spec fn spec_valid_did(s: Seq<char>) -> bool {
    let m = first_colon_from(s, 4);
    &&& s.len() <= 2048
    &&& s.len() > 4
    &&& s[0] == 'd' && s[1] == 'i' && s[2] == 'd' && s[3] == ':'
    &&& 4 < m < s.len() - 1
    &&& (forall|j: int| 4 <= j < m ==> is_lower_alpha(#[trigger] s[j]))
    &&& (forall|j: int| m < j < s.len() - 1 ==> is_did_id_char(#[trigger] s[j]))
    &&& is_did_id_last_char(s[s.len() - 1])
}

/// The method name of a DID: the characters between `did:` and the next `:`.
pub open spec fn spec_did_method(s: Seq<char>) -> Seq<char> {
    s.subrange(4, first_colon_from(s, 4))
}

/// The characters after the last `:` of `s` (all of `s` when it has none):
/// for a `web`-method DID, the host to fetch the well-known document from.
pub open spec fn spec_after_last_colon(s: Seq<char>) -> Seq<char> {
    s.subrange(last_colon_before(s, s.len() as int) + 1, s.len() as int)
}

/// Position of the last `:` strictly before `i`, or `-1` when none.
pub open spec fn last_colon_before(s: Seq<char>, i: int) -> int
    decreases i when i <= s.len()
{
    if i <= 0 {
        -1
    } else if s[i - 1] == ':' {
        i - 1
    } else {
        last_colon_before(s, i - 1)
    }
}

/// Bounds and characterization of `first_colon_from`.
pub proof fn lemma_first_colon_from(s: Seq<char>, i: int)
    requires
        0 <= i <= s.len(),
    ensures
        i <= first_colon_from(s, i) <= s.len(),
        first_colon_from(s, i) < s.len() ==> s[first_colon_from(s, i)] == ':',
        forall|j: int| i <= j < first_colon_from(s, i) ==> s[j] != ':',
    decreases s.len() - i,
{
    if i < s.len() && s[i] != ':' {
        lemma_first_colon_from(s, i + 1);
    }
}

/// `first_colon_from` is pinned by a colon-free prefix ending at a colon
/// (or at the end of the string).
pub proof fn lemma_first_colon_at(s: Seq<char>, i: int, k: int)
    requires
        0 <= i <= k <= s.len(),
        forall|j: int| i <= j < k ==> s[j] != ':',
        k == s.len() || s[k] == ':',
    ensures
        first_colon_from(s, i) == k,
    decreases k - i,
{
    if i < k {
        lemma_first_colon_at(s, i + 1, k);
    }
}

/// `last_colon_before` is pinned by a colon at `k` with no colon after it.
pub proof fn lemma_last_colon_at(s: Seq<char>, i: int, k: int)
    requires
        -1 <= k < i <= s.len(),
        k >= 0 ==> s[k] == ':',
        forall|j: int| k < j < i ==> s[j] != ':',
    ensures
        last_colon_before(s, i) == k,
    decreases i - k,
{
    if k < i - 1 {
        lemma_last_colon_at(s, i - 1, k);
    }
}

/// Whether `c` is a lowercase ASCII letter.
pub fn lower_alpha(c: char) -> (b: bool)
    ensures
        b == is_lower_alpha(c),
{
    'a' <= c && c <= 'z'
}

/// Whether `c` may appear inside the method-specific part of a DID.
pub fn did_id_char(c: char) -> (b: bool)
    ensures
        b == is_did_id_char(c),
{
    ('a' <= c && c <= 'z') || ('A' <= c && c <= 'Z') || ('0' <= c && c <= '9') || c == '.'
        || c == '_' || c == ':' || c == '%' || c == '-'
}

/// A validated decentralized identifier.
pub struct Did {
    s: String,
}

impl View for Did {
    type V = Seq<char>;

    closed spec fn view(&self) -> Seq<char> {
        self.s@
    }
}

impl Did {
    /// Every value of this type holds a syntactically valid identifier.
    #[verifier::type_invariant]
    pub closed spec fn wf(&self) -> bool {
        spec_valid_did(self.s@)
    }

    /// Validates `did` against the DID syntax and wraps it.
    pub fn new(did: String) -> (r: Result<Did, String>)
        ensures
            r is Ok <==> spec_valid_did(did@),
            r matches Ok(d) ==> d@ == did@,
    {
        let n = did.as_str().unicode_len();
        if n > 2048 || n < 7 {
            return Err(String::from_str("Invalid DID"));
        }
        if !(did.as_str().get_char(0) == 'd' && did.as_str().get_char(1) == 'i'
            && did.as_str().get_char(2) == 'd' && did.as_str().get_char(3) == ':') {
            return Err(String::from_str("Invalid DID"));
        }
        // scan the method name up to the colon that ends it
        let mut i: usize = 4;
        while i < n && did.as_str().get_char(i) != ':'
            invariant
                4 <= i <= n,
                n == did@.len(),
                7 <= n <= 2048,
                forall|j: int| 4 <= j < i ==> is_lower_alpha(#[trigger] did@[j]) && did@[j] != ':',
            decreases n - i,
        {
            let c = did.as_str().get_char(i);
            if !lower_alpha(c) {
                proof {
                    lemma_first_colon_from(did@, 4);
                    let ghost m = first_colon_from(did@, 4);
                    if spec_valid_did(did@) {
                        if m > i {
                            // i would lie inside the method part, all lowercase
                            assert(is_lower_alpha(did@[i as int]));
                        } else {
                            // the first colon would lie at or before i, where none is
                            assert(did@[m] == ':');
                        }
                    }
                }
                return Err(String::from_str("Invalid DID"));
            }
            i = i + 1;
        }
        if i >= n {
            proof {
                lemma_first_colon_at(did@, 4, n as int);
            }
            return Err(String::from_str("Invalid DID"));
        }
        proof {
            lemma_first_colon_at(did@, 4, i as int);
        }
        if i == 4 || i >= n - 1 {
            return Err(String::from_str("Invalid DID"));
        }
        // scan the method-specific part
        let mut k: usize = i + 1;
        while k < n - 1
            invariant
                i + 1 <= k <= n - 1,
                n == did@.len(),
                7 <= n <= 2048,
                4 < i < n - 1,
                first_colon_from(did@, 4) == i as int,
                forall|j: int| i < j < k ==> is_did_id_char(#[trigger] did@[j]),
            decreases n - k,
        {
            let c = did.as_str().get_char(k);
            if !did_id_char(c) {
                return Err(String::from_str("Invalid DID"));
            }
            k = k + 1;
        }
        let last = did.as_str().get_char(n - 1);
        if !(did_id_char(last) && last != ':' && last != '%') {
            return Err(String::from_str("Invalid DID"));
        }
        Ok(Did { s: did })
    }

    /// The identifier as a string slice.
    pub fn as_str(&self) -> (r: &str)
        ensures
            r@ == self@,
    {
        self.s.as_str()
    }

    /// The method name of the identifier, such as `plc` or `web`.
    pub fn method(&self) -> (r: String)
        ensures
            r@ == spec_did_method(self@),
    {
        proof {
            use_type_invariant(self);
        }
        let n = self.s.as_str().unicode_len();
        let mut i: usize = 4;
        while i < n && self.s.as_str().get_char(i) != ':'
            invariant
                4 <= i <= n,
                n == self@.len(),
                spec_valid_did(self@),
                forall|j: int| 4 <= j < i ==> self@[j] != ':',
            decreases n - i,
        {
            i = i + 1;
        }
        proof {
            lemma_first_colon_at(self@, 4, i as int);
        }
        let m = self.s.as_str().substring_char(4, i);
        m.to_owned()
    }

    /// The characters after the last `:`: the host part of a `web` DID.
    pub fn after_last_colon(&self) -> (r: String)
        ensures
            r@ == spec_after_last_colon(self@),
    {
        let n = self.s.as_str().unicode_len();
        let mut i: usize = n;
        while i > 0 && self.s.as_str().get_char(i - 1) != ':'
            invariant
                0 <= i <= n,
                n == self@.len(),
                forall|j: int| i <= j < n ==> self@[j] != ':',
            decreases i,
        {
            i = i - 1;
        }
        proof {
            if i > 0 {
                lemma_last_colon_at(self@, n as int, i - 1);
            } else {
                lemma_last_colon_at(self@, n as int, -1);
            }
        }
        let t = self.s.as_str().substring_char(i, n);
        t.to_owned()
    }
}

impl Clone for Did {
    /// A clone carries the same identifier.
    fn clone(&self) -> (r: Self)
        ensures
            r@ == self@,
    {
        proof {
            use_type_invariant(self);
        }
        Did { s: self.s.clone() }
    }
}

} // verus!
