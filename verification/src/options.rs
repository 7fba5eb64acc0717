//! Derives the candidate command strings from an input sentence and
//! extracts the payload that is handed to the shell.

use vstd::prelude::*;
use vstd::string::*;

verus! {

/// The sequence of characters that `str::to_lowercase` produces for `s`.
pub uninterp spec fn lower_of(s: Seq<char>) -> Seq<char>;

/// Relies on str::to_lowercase: the result is a function of the characters alone.
#[verifier::external_body]
fn lowercase(s: &str) -> (r: String)
    ensures
        r@ == lower_of(s@),
{
    s.to_lowercase()
}

/// Relies on String::push: it appends the given character at the end.
#[verifier::external_body]
fn push_char(s: &mut String, c: char)
    ensures
        final(s)@ == old(s)@.push(c),
{
    s.push(c)
}

/// Builds the character-wise reversal of `s`.
pub fn reverse_string(s: &str) -> (r: String)
    ensures
        r@ == s@.reverse(),
{
    let len = s.unicode_len();
    let mut r = String::new();
    let mut i: usize = 0;
    while i < len
        invariant
            len == s@.len(),
            i <= len,
            r@ == s@.subrange(len - i, len as int).reverse(),
        decreases len - i,
    {
        let c = s.get_char(len - 1 - i);
        push_char(&mut r, c);
        proof {
            assert(r@ =~= s@.subrange(len - (i + 1), len as int).reverse());
        }
        i = i + 1;
    }
    proof {
        assert(s@.subrange(0, len as int) =~= s@);
    }
    r
}

/// Whether the delimiter `": "` sits at position `i` of `s`.
pub open spec fn delim_at(s: Seq<char>, i: int) -> bool {
    0 <= i && i + 2 <= s.len() && s[i] == ':' && s[i + 1] == ' '
}

/// The position of the first delimiter at or after `i`, if any.
pub open spec fn first_delim_from(s: Seq<char>, i: int) -> Option<int>
    decreases s.len() - i when 0 <= i
{
    if i + 2 > s.len() {
        None
    } else if s[i] == ':' && s[i + 1] == ' ' {
        Some(i)
    } else {
        first_delim_from(s, i + 1)
    }
}

/// The payload of a display string: everything after the first
/// delimiter, or the whole string when there is none.
pub open spec fn payload_of(s: Seq<char>) -> Seq<char> {
    match first_delim_from(s, 0) {
        Some(i) => s.subrange(i + 2, s.len() as int),
        None => s,
    }
}

/// Extracts the shell payload from a chosen display string.
pub fn extract_payload(s: &str) -> (r: String)
    ensures
        r@ == payload_of(s@),
{
    let len = s.unicode_len();
    let mut i: usize = 0;
    while len >= 2 && i <= len - 2
        invariant
            len == s@.len(),
            i <= len,
            first_delim_from(s@, 0) == first_delim_from(s@, i as int),
        decreases len - i,
    {
        if s.get_char(i) == ':' && s.get_char(i + 1) == ' ' {
            let tail = s.substring_char(i + 2, len);
            return tail.to_owned();
        }
        i = i + 1;
    }
    s.to_owned()
}

proof fn lemma_first_delim_from_reaches(s: Seq<char>, k: int, i: int)
    requires
        0 <= k <= i,
        delim_at(s, i),
        forall|j: int| k <= j < i ==> !delim_at(s, j),
    ensures
        first_delim_from(s, k) == Some(i),
    decreases i - k,
{
    if k < i {
        assert(!delim_at(s, k));
        assert(k + 2 <= s.len());
        lemma_first_delim_from_reaches(s, k + 1, i);
        assert(first_delim_from(s, k) == first_delim_from(s, k + 1));
    } else {
        assert(first_delim_from(s, k) == Some(k));
    }
}

proof fn lemma_first_delim_from_none(s: Seq<char>, k: int)
    requires
        0 <= k,
        forall|j: int| k <= j ==> !delim_at(s, j),
    ensures
        first_delim_from(s, k) is None,
    decreases s.len() - k,
{
    if k + 2 <= s.len() {
        assert(!delim_at(s, k));
        lemma_first_delim_from_none(s, k + 1);
        assert(first_delim_from(s, k) == first_delim_from(s, k + 1));
    } else {
        assert(first_delim_from(s, k) is None);
    }
}

/// Law: when `i` is the first delimiter occurrence, the payload is
/// exactly the substring after it.
pub proof fn lemma_payload_at_first_delim(s: Seq<char>, i: int)
    requires
        delim_at(s, i),
        forall|j: int| 0 <= j < i ==> !delim_at(s, j),
    ensures
        payload_of(s) == s.subrange(i + 2, s.len() as int),
{
    lemma_first_delim_from_reaches(s, 0, i);
}

/// Law: a string without the delimiter is its own payload.
pub proof fn lemma_payload_no_delim(s: Seq<char>)
    requires
        forall|j: int| !delim_at(s, j),
    ensures
        payload_of(s) == s,
{
    lemma_first_delim_from_none(s, 0);
}

/// What the first menu entry shows: a fixed listing command.
pub open spec fn option1_view() -> Seq<char> {
    "Option 1: ls -la"@
}

/// What the second menu entry shows: the lowercased sentence.
pub open spec fn option2_view(s: Seq<char>) -> Seq<char> {
    "Option 2: "@ + lower_of(s)
}

/// What the third menu entry shows: the reversed sentence.
pub open spec fn option3_view(s: Seq<char>) -> Seq<char> {
    "Option 3: "@ + s.reverse()
}

/// Law: every generated entry carries its own label, and the three
/// labels are pairwise distinct.
pub proof fn lemma_options_labelled(s: Seq<char>)
    ensures
        option1_view().len() >= 10 && option1_view().subrange(0, 10) == "Option 1: "@,
        option2_view(s).len() >= 10 && option2_view(s).subrange(0, 10) == "Option 2: "@,
        option3_view(s).len() >= 10 && option3_view(s).subrange(0, 10) == "Option 3: "@,
        "Option 1: "@ != "Option 2: "@,
        "Option 1: "@ != "Option 3: "@,
        "Option 2: "@ != "Option 3: "@,
{
    reveal_strlit("Option 1: ls -la");
    reveal_strlit("Option 1: ");
    reveal_strlit("Option 2: ");
    reveal_strlit("Option 3: ");
    assert(option1_view().subrange(0, 10) =~= "Option 1: "@);
    assert(option2_view(s).subrange(0, 10) =~= "Option 2: "@);
    assert(option3_view(s).subrange(0, 10) =~= "Option 3: "@);
    assert("Option 1: "@[7] == '1' && "Option 2: "@[7] == '2' && "Option 3: "@[7] == '3');
}

/// Law: the second entry's payload is exactly the lowercased sentence.
pub proof fn lemma_lowercase_payload(s: Seq<char>)
    ensures
        payload_of(option2_view(s)) == lower_of(s),
{
    reveal_strlit("Option 2: ");
    let full = option2_view(s);
    assert(delim_at(full, 8));
    assert forall|j: int| 0 <= j < 8 implies !delim_at(full, j) by {
        assert(full[j] == "Option 2: "@[j]);
    }
    lemma_payload_at_first_delim(full, 8);
    assert(full.subrange(10, full.len() as int) =~= lower_of(s));
}

/// Law: the third entry's payload is exactly the reversed sentence.
pub proof fn lemma_reverse_payload(s: Seq<char>)
    ensures
        payload_of(option3_view(s)) == s.reverse(),
{
    reveal_strlit("Option 3: ");
    let full = option3_view(s);
    assert(delim_at(full, 8));
    assert forall|j: int| 0 <= j < 8 implies !delim_at(full, j) by {
        assert(full[j] == "Option 3: "@[j]);
    }
    lemma_payload_at_first_delim(full, 8);
    assert(full.subrange(10, full.len() as int) =~= s.reverse());
}

/// Law: the first entry's payload is the fixed listing command.
pub proof fn lemma_fixed_payload()
    ensures
        payload_of(option1_view()) == "ls -la"@,
{
    reveal_strlit("Option 1: ls -la");
    reveal_strlit("ls -la");
    let full = option1_view();
    assert(delim_at(full, 8));
    assert forall|j: int| 0 <= j < 8 implies !delim_at(full, j) by {
        assert(full[j] == "Option 1: ls -la"@[j]);
    }
    lemma_payload_at_first_delim(full, 8);
    assert(full.subrange(10, full.len() as int) =~= "ls -la"@);
}

/// Law: reversing a sentence twice gives the sentence back.
pub proof fn lemma_reverse_round_trip(s: Seq<char>)
    ensures
        s.reverse().reverse() == s,
{
    assert(s.reverse().reverse() =~= s);
}

/// Derives the three candidate command strings from the sentence.
pub fn generate_options(sentence: &str) -> (r: Vec<String>)
    ensures
        r@.len() == 3,
        r@[0]@ == option1_view(),
        r@[1]@ == option2_view(sentence@),
        r@[2]@ == option3_view(sentence@),
{
    let mut r: Vec<String> = Vec::new();
    r.push(String::from_str("Option 1: ls -la"));
    let low = lowercase(sentence);
    r.push(String::from_str("Option 2: ").concat(low.as_str()));
    let rev = reverse_string(sentence);
    r.push(String::from_str("Option 3: ").concat(rev.as_str()));
    r
}

} // verus!
