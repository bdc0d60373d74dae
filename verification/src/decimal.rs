//! Decimal numerals: how a number is written into a header field or a token.

use vstd::prelude::*;
use vstd::string::*;

verus! {

/// The character that stands for the digit `d`.
pub open spec fn digit(d: nat) -> char {
    if d == 0 {
        '0'
    } else if d == 1 {
        '1'
    } else if d == 2 {
        '2'
    } else if d == 3 {
        '3'
    } else if d == 4 {
        '4'
    } else if d == 5 {
        '5'
    } else if d == 6 {
        '6'
    } else if d == 7 {
        '7'
    } else if d == 8 {
        '8'
    } else {
        '9'
    }
}

/// The digit that the character `c` stands for; 0 for any other character.
pub open spec fn digit_value(c: char) -> nat {
    if c == '1' {
        1
    } else if c == '2' {
        2
    } else if c == '3' {
        3
    } else if c == '4' {
        4
    } else if c == '5' {
        5
    } else if c == '6' {
        6
    } else if c == '7' {
        7
    } else if c == '8' {
        8
    } else if c == '9' {
        9
    } else {
        0
    }
}

/// Whether `c` is one of the ten digit characters.
pub open spec fn is_digit(c: char) -> bool {
    '0' <= c <= '9'
}

/// The decimal numeral of `n`: most significant digit first, no sign, no
/// leading zero but for 0 itself.
pub open spec fn decimal(n: nat) -> Seq<char>
    decreases n,
{
    if n < 10 {
        seq![digit(n)]
    } else {
        decimal(n / 10).push(digit(n % 10))
    }
}

/// The number that a sequence of digits stands for.
pub open spec fn decimal_value(s: Seq<char>) -> nat
    decreases s.len(),
{
    if s.len() == 0 {
        0
    } else {
        10 * decimal_value(s.drop_last()) + digit_value(s.last())
    }
}

/// Reading a numeral gives back the number it was written for.
pub proof fn lemma_decimal_value(n: nat)
    ensures
        decimal_value(decimal(n)) == n,
    decreases n,
{
    if n < 10 {
        assert(decimal(n).drop_last() =~= Seq::<char>::empty());
        assert(decimal_value(Seq::<char>::empty()) == 0);
    } else {
        lemma_decimal_value(n / 10);
        assert(decimal(n).drop_last() =~= decimal(n / 10));
    }
}

/// A numeral is not empty and holds digit characters only.
pub proof fn lemma_decimal_digits(n: nat)
    ensures
        decimal(n).len() > 0,
        forall|i: int| 0 <= i < decimal(n).len() ==> is_digit(#[trigger] decimal(n)[i]),
    decreases n,
{
    if n >= 10 {
        lemma_decimal_digits(n / 10);
    }
}

/// The digit `d` as a text of one character.
fn digit_str(d: usize) -> (s: &'static str)
    requires
        d < 10,
    ensures
        s@ == seq![digit(d as nat)],
{
    proof {
        reveal_strlit("0");
        reveal_strlit("1");
        reveal_strlit("2");
        reveal_strlit("3");
        reveal_strlit("4");
        reveal_strlit("5");
        reveal_strlit("6");
        reveal_strlit("7");
        reveal_strlit("8");
        reveal_strlit("9");
    }
    let s = if d == 0 {
        "0"
    } else if d == 1 {
        "1"
    } else if d == 2 {
        "2"
    } else if d == 3 {
        "3"
    } else if d == 4 {
        "4"
    } else if d == 5 {
        "5"
    } else if d == 6 {
        "6"
    } else if d == 7 {
        "7"
    } else if d == 8 {
        "8"
    } else {
        "9"
    };
    s
}

/// The text of one character that holds the digit character `c`.
fn digit_text(c: char) -> (s: &'static str)
    requires
        is_digit(c),
    ensures
        s@ == seq![c],
{
    let d: usize = if c == '0' {
        0
    } else if c == '1' {
        1
    } else if c == '2' {
        2
    } else if c == '3' {
        3
    } else if c == '4' {
        4
    } else if c == '5' {
        5
    } else if c == '6' {
        6
    } else if c == '7' {
        7
    } else if c == '8' {
        8
    } else {
        9
    };
    digit_str(d)
}

/// The digit character that follows `c`.
fn next_digit(c: char) -> (next: char)
    requires
        is_digit(c),
        c != '9',
    ensures
        next == digit(digit_value(c) + 1),
{
    if c == '0' {
        '1'
    } else if c == '1' {
        '2'
    } else if c == '2' {
        '3'
    } else if c == '3' {
        '4'
    } else if c == '4' {
        '5'
    } else if c == '5' {
        '6'
    } else if c == '6' {
        '7'
    } else if c == '7' {
        '8'
    } else {
        '9'
    }
}

/// Writes `n` as a decimal numeral.
pub fn to_decimal(n: usize) -> (s: String)
    ensures
        s@ == decimal(n as nat),
    decreases n,
{
    if n < 10 {
        String::from_str(digit_str(n))
    } else {
        let mut s = to_decimal(n / 10);
        s.append(digit_str(n % 10));
        s
    }
}

/// A counter without an upper bound, kept as the decimal numeral of its
/// value.
pub struct Counter {
    digits: Vec<char>,
    count: Ghost<nat>,
}

impl Counter {
    /// The number of times the counter was incremented.
    pub closed spec fn value(&self) -> nat {
        self.count@
    }

    /// The digits held are the numeral of the value.
    pub closed spec fn wf(&self) -> bool {
        self.digits@ == decimal(self.count@)
    }

    /// A counter at 0.
    pub fn new() -> (counter: Self)
        ensures
            counter.wf(),
            counter.value() == 0,
    {
        let digits: Vec<char> = vec!['0'];
        proof {
            assert(digits@ =~= decimal(0));
        }
        Counter { digits, count: Ghost(0) }
    }

    /// The decimal numeral of the counter's value.
    pub fn numeral(&self) -> (s: String)
        requires
            self.wf(),
        ensures
            s@ == decimal(self.value()),
    {
        let mut s = String::new();
        let n = self.digits.len();
        let mut i: usize = 0;
        proof {
            lemma_decimal_digits(self.count@);
        }
        while i < n
            invariant
                i <= n == self.digits@.len(),
                s@ == self.digits@.take(i as int),
                forall|j: int| 0 <= j < n ==> is_digit(#[trigger] self.digits@[j]),
            decreases n - i,
        {
            s.append(digit_text(self.digits[i]));
            i += 1;
        }
        s
    }

    /// Adds 1 to the counter.
    pub fn increment(&mut self)
        requires
            old(self).wf(),
        ensures
            final(self).wf(),
            final(self).value() == old(self).value() + 1,
    {
        increment_digits(&mut self.digits, Ghost(self.count@));
        self.count = Ghost((self.count@ + 1) as nat);
    }
}

/// Turns the numeral of `n` into the numeral of `n + 1`.
fn increment_digits(digits: &mut Vec<char>, Ghost(n): Ghost<nat>)
    requires
        old(digits)@ == decimal(n),
    ensures
        final(digits)@ == decimal(n + 1),
    decreases n,
{
    proof {
        lemma_decimal_digits(n);
        if n >= 10 {
            lemma_decimal_digits(n / 10);
        }
    }
    let ghost before = digits@;
    let last = digits.pop().unwrap();
    if last != '9' {
        digits.push(next_digit(last));
    } else if digits.len() == 0 {
        digits.push('1');
        digits.push('0');
        proof {
            assert(n < 10);
            assert(decimal(1) =~= seq!['1']);
        }
    } else {
        proof {
            assert(n >= 10);
            assert(before.drop_last() =~= decimal(n / 10));
        }
        increment_digits(digits, Ghost(n / 10));
        digits.push('0');
    }
}

} // verus!
