//! Small text helpers: decimal numbers, comparison and joining.

use vstd::prelude::*;
use vstd::string::*;
use vstd::utf8::is_ascii_chars;

verus! {

/// The decimal digit `d` as a character.
pub open spec fn digit_char(d: nat) -> char {
    (48 + d) as char
}

/// `n` written in decimal, most significant digit first, without leading zeros.
pub open spec fn decimal(n: nat) -> Seq<char>
    decreases n,
{
    if n < 10 {
        seq![digit_char(n)]
    } else {
        decimal(n / 10).push(digit_char(n % 10))
    }
}

/// The texts of a list of strings.
pub open spec fn texts(list: Seq<String>) -> Seq<Seq<char>> {
    list.map_values(|s: String| s@)
}

/// The items of `list` in order, with `sep` between neighbours.
pub open spec fn joined(list: Seq<Seq<char>>, sep: Seq<char>) -> Seq<char>
    decreases list.len(),
{
    if list.len() == 0 {
        Seq::empty()
    } else if list.len() == 1 {
        list[0]
    } else {
        joined(list.drop_last(), sep) + sep + list.last()
    }
}

/// `c` in lower case, where it is an ASCII letter.
pub open spec fn ascii_lower(c: char) -> char {
    if 'A' <= c && c <= 'Z' {
        (c as nat + 32) as char
    } else {
        c
    }
}

/// A text in lower case, by Unicode's rules.
pub uninterp spec fn lowercase(text: Seq<char>) -> Seq<char>;

/// `str::to_lowercase`. In a text of ASCII characters only the letters `A` to
/// `Z` change, each to its small form.
pub assume_specification[ str::to_lowercase ](s: &str) -> (r: String)
    ensures
        r@ == lowercase(s@),
        is_ascii_chars(s@) ==> r@ == s@.map_values(|c: char| ascii_lower(c)),
;

/// The one-character text of a decimal digit.
fn digit_text(d: usize) -> (r: &'static str)
    requires
        d < 10,
    ensures
        r@ == seq![digit_char(d as nat)],
{
    proof {
        reveal_strlit("0");
        reveal_strlit("1");
        reveal_strlit("2");
        reveal_strlit("3");
        reveal_strlit("4");
        reveal_strlit("5");
        reveal_strlit("6");
        reveal_strlit("7");
        reveal_strlit("8");
        reveal_strlit("9");
    }
    match d {
        0 => "0",
        1 => "1",
        2 => "2",
        3 => "3",
        4 => "4",
        5 => "5",
        6 => "6",
        7 => "7",
        8 => "8",
        _ => "9",
    }
}

/// Writes `n` in decimal.
pub fn decimal_string(n: usize) -> (r: String)
    ensures
        r@ == decimal(n as nat),
    decreases n,
{
    if n < 10 {
        digit_text(n).to_owned()
    } else {
        let mut r = decimal_string(n / 10);
        r.append(digit_text(n % 10));
        r
    }
}

/// Whether two texts are the same.
pub fn same_text(a: &str, b: &str) -> (r: bool)
    ensures
        r == (a@ == b@),
{
    a.to_owned() == b.to_owned()
}

/// Joins `list` with `sep` between neighbours.
pub fn join_texts(list: &Vec<String>, sep: &str) -> (r: String)
    ensures
        r@ == joined(texts(list@), sep@),
{
    let ghost all = texts(list@);
    let mut r = String::new();
    let mut i: usize = 0;
    while i < list.len()
        invariant
            i <= list.len(),
            all == texts(list@),
            r@ == joined(all.take(i as int), sep@),
        decreases list.len() - i,
    {
        proof {
            assert(all.take(i + 1).drop_last() == all.take(i as int));
        }
        if i > 0 {
            r.append(sep);
        }
        r.append(list[i].as_str());
        i = i + 1;
    }
    proof {
        assert(all.take(i as int) == all);
    }
    r
}

/// A copy of a list of strings.
pub fn copy_texts(list: &Vec<String>) -> (r: Vec<String>)
    ensures
        texts(r@) == texts(list@),
{
    let mut r: Vec<String> = Vec::new();
    let mut i: usize = 0;
    while i < list.len()
        invariant
            i <= list.len(),
            r@ == list@.take(i as int),
        decreases list.len() - i,
    {
        r.push(list[i].clone());
        i = i + 1;
    }
    r
}

/// Whether `list` holds the text `item`.
pub fn contains_text(list: &Vec<String>, item: &str) -> (r: bool)
    ensures
        r == texts(list@).contains(item@),
{
    let mut i: usize = 0;
    while i < list.len()
        invariant
            i <= list.len(),
            forall|j: int| 0 <= j < i ==> texts(list@)[j] != item@,
        decreases list.len() - i,
    {
        if same_text(list[i].as_str(), item) {
            assert(texts(list@)[i as int] == item@);
            return true;
        }
        i = i + 1;
    }
    false
}

/// The number that a text of decimal digits says.
pub open spec fn number_said(text: Seq<char>) -> int
    decreases text.len(),
{
    if text.len() == 0 {
        0
    } else {
        number_said(text.drop_last()) * 10 + (text.last() as int - '0' as int)
    }
}

/// A number written in decimal says that number, in digits only and without a
/// leading zero, so that no two numbers are written alike.
pub proof fn decimal_says_the_number(n: nat)
    ensures
        number_said(decimal(n)) == n,
        decimal(n).len() > 0,
        forall|i: int| 0 <= i < decimal(n).len() ==> '0' <= #[trigger] decimal(n)[i] <= '9',
        decimal(n)[0] == '0' ==> n == 0 && decimal(n).len() == 1,
    decreases n,
{
    reveal_with_fuel(number_said, 2);
    if n >= 10 {
        decimal_says_the_number(n / 10);
        assert(decimal(n).drop_last() =~= decimal(n / 10));
    } else {
        assert(decimal(n).drop_last() =~= Seq::<char>::empty());
    }
}

/// Texts that are joined: a text alone is itself, and wherever a list is cut, its
/// two parts stand one behind the other with one separator between them.
pub proof fn joined_parts(a: Seq<Seq<char>>, b: Seq<Seq<char>>, text: Seq<char>, sep: Seq<char>)
    requires
        a.len() > 0,
        b.len() > 0,
    ensures
        joined(Seq::empty(), sep) == Seq::<char>::empty(),
        joined(seq![text], sep) == text,
        joined(a + b, sep) == joined(a, sep) + sep + joined(b, sep),
    decreases b.len(),
{
    assert((a + b).drop_last() =~= a + b.drop_last());
    if b.len() == 1 {
        assert(a + b.drop_last() =~= a);
    } else {
        joined_parts(a, b.drop_last(), text, sep);
        assert(joined(a + b, sep) =~= joined(a, sep) + sep + joined(b, sep));
    }
}

/// Lower case changes the letters from `A` to `Z` and nothing else, each to the
/// letter with the same place from `a` to `z`.
pub proof fn lower_case_keeps_the_letter(c: char)
    ensures
        'A' <= c && c <= 'Z' ==> 'a' <= ascii_lower(c) && ascii_lower(c) <= 'z' && ascii_lower(c)
            as int - 'a' as int == c as int - 'A' as int,
        !('A' <= c && c <= 'Z') ==> ascii_lower(c) == c,
{
}

/// The texts of a list are those of its strings, one for one.
pub proof fn texts_are_those_of_the_list(list: Seq<String>, i: int)
    requires
        0 <= i < list.len(),
    ensures
        texts(list).len() == list.len(),
        texts(list)[i] == list[i]@,
{
}

/// The text helpers: a number in decimal, whether two texts are the same, whether a list
/// holds a text, and a copy of a list.
pub proof fn text_helpers_say_what_they_are_asked(
    n: usize,
    number: String,
    a: &str,
    b: &str,
    answer: bool,
    list: &Vec<String>,
    copy: Vec<String>,
)
    ensures
        decimal_string.ensures((n,), number) ==> number_said(number@) == n,
        same_text.ensures((a, b), answer) ==> (answer <==> a@ == b@),
        contains_text.ensures((list, a), answer) ==> (answer <==> exists|i: int|
            0 <= i < list@.len() && #[trigger] list@[i]@ == a@),
        copy_texts.ensures((list,), copy) ==> copy@.len() == list@.len() && forall|i: int|
            0 <= i < list@.len() ==> #[trigger] copy@[i]@ == list@[i]@,
{
    decimal_says_the_number(n as nat);
    let all = texts(list@);
    assert(forall|i: int| 0 <= i < list@.len() ==> #[trigger] list@[i]@ == all[i]);
    if all.contains(a@) {
        let i = all.index_of(a@);
        assert(list@[i]@ == a@);
    }
    if exists|i: int| 0 <= i < list@.len() && #[trigger] list@[i]@ == a@ {
        let i = choose|i: int| 0 <= i < list@.len() && #[trigger] list@[i]@ == a@;
        assert(all[i] == a@);
    }
    if copy_texts.ensures((list,), copy) {
        assert(texts(copy@).len() == copy@.len());
        assert forall|i: int| 0 <= i < list@.len() implies #[trigger] copy@[i]@ == list@[i]@ by {
            assert(texts(copy@)[i] == all[i]);
        }
    }
}

/// Texts are joined in order, with the separator between two neighbours and nowhere
/// else: it comes once less than there are texts.
pub proof fn joining_counts_the_separators(list: &Vec<String>, sep: &str, r: String)
    requires
        join_texts.ensures((list, sep), r),
    ensures
        list@.len() == 0 ==> r@.len() == 0,
        list@.len() == 1 ==> r@ == list@[0]@,
        list@.len() == 2 ==> r@ == list@[0]@ + sep@ + list@[1]@,
        list@.len() > 0 ==> r@.len() == total_len(texts(list@)) + (list@.len() - 1) * sep@.len(),
{
    reveal_with_fuel(joined, 3);
    let all = texts(list@);
    if list@.len() == 2 {
        assert(all.drop_last()[0] == list@[0]@);
    }
    if list@.len() > 0 {
        lemma_joined_len(all, sep@);
    }
}

/// The lengths of some texts together.
pub open spec fn total_len(list: Seq<Seq<char>>) -> nat
    decreases list.len(),
{
    if list.len() == 0 {
        0
    } else {
        total_len(list.drop_last()) + list.last().len()
    }
}

proof fn lemma_joined_len(list: Seq<Seq<char>>, sep: Seq<char>)
    requires
        list.len() > 0,
    ensures
        joined(list, sep).len() == total_len(list) + (list.len() - 1) * sep.len(),
    decreases list.len(),
{
    reveal_with_fuel(total_len, 2);
    if list.len() > 1 {
        lemma_joined_len(list.drop_last(), sep);
        assert((list.len() - 1) * sep.len() == (list.len() - 2) * sep.len() + sep.len())
            by (nonlinear_arith);
    } else {
        assert((list.len() - 1) * sep.len() == 0) by (nonlinear_arith)
            requires
                list.len() == 1,
        ;
    }
}

} // verus!
