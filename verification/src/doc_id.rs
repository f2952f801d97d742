//! The document identity generator: the engine primitive that hands every
//! row of a batch a unique opaque string identifier.
//!
//! An identifier is the fixed-width hexadecimal rendering of a node
//! discriminant and a monotonic counter, so identifiers drawn from one
//! generator never repeat, within a batch or across batches, and two
//! generators with different node discriminants never collide.

use vstd::prelude::*;
use vstd::arithmetic::div_mod::{lemma_fundamental_div_mod, lemma_multiply_divide_lt};

verus! {

/// The lower-case hexadecimal digit for a value below sixteen.
pub open spec fn hex_digit(d: nat) -> char {
    if d == 0 {
        '0'
    } else if d == 1 {
        '1'
    } else if d == 2 {
        '2'
    } else if d == 3 {
        '3'
    } else if d == 4 {
        '4'
    } else if d == 5 {
        '5'
    } else if d == 6 {
        '6'
    } else if d == 7 {
        '7'
    } else if d == 8 {
        '8'
    } else if d == 9 {
        '9'
    } else if d == 10 {
        'a'
    } else if d == 11 {
        'b'
    } else if d == 12 {
        'c'
    } else if d == 13 {
        'd'
    } else if d == 14 {
        'e'
    } else {
        'f'
    }
}

/// The value a hexadecimal digit stands for.
pub open spec fn hex_val(c: char) -> nat {
    if c == '0' {
        0
    } else if c == '1' {
        1
    } else if c == '2' {
        2
    } else if c == '3' {
        3
    } else if c == '4' {
        4
    } else if c == '5' {
        5
    } else if c == '6' {
        6
    } else if c == '7' {
        7
    } else if c == '8' {
        8
    } else if c == '9' {
        9
    } else if c == 'a' {
        10
    } else if c == 'b' {
        11
    } else if c == 'c' {
        12
    } else if c == 'd' {
        13
    } else if c == 'e' {
        14
    } else {
        15
    }
}

/// The `k` low hexadecimal digits of `n`, most significant first.
pub open spec fn hex_digits(n: nat, k: nat) -> Seq<char>
    decreases k,
{
    if k == 0 {
        Seq::empty()
    } else {
        hex_digits(n / 16, (k - 1) as nat).push(hex_digit(n % 16))
    }
}

/// Sixteen to the `k`th power.
pub open spec fn pow16(k: nat) -> nat
    decreases k,
{
    if k == 0 {
        1
    } else {
        16 * pow16((k - 1) as nat)
    }
}

/// The number a digit string denotes: the left inverse of `hex_digits`.
spec fn unhex(s: Seq<char>) -> nat
    decreases s.len(),
{
    if s.len() == 0 {
        0
    } else {
        unhex(s.drop_last()) * 16 + hex_val(s.last())
    }
}

/// A width-`k` digit string has `k` characters.
proof fn lemma_hex_digits_len(n: nat, k: nat)
    ensures
        hex_digits(n, k).len() == k,
    decreases k,
{
    if k > 0 {
        lemma_hex_digits_len(n / 16, (k - 1) as nat);
    }
}

/// Reading the digit string of a number below `16^k` back gives the
/// number: the rendering loses nothing.
proof fn lemma_unhex_hex_digits(n: nat, k: nat)
    requires
        n < pow16(k),
    ensures
        unhex(hex_digits(n, k)) == n,
    decreases k,
{
    if k == 0 {
        assert(n == 0);
    } else {
        let rest = hex_digits(n / 16, (k - 1) as nat);
        let s = hex_digits(n, k);
        lemma_hex_digits_len(n / 16, (k - 1) as nat);
        assert(s.drop_last() =~= rest);
        assert(s.last() == hex_digit(n % 16));
        assert((n as int) / 16 < pow16((k - 1) as nat) as int) by {
            lemma_multiply_divide_lt(n as int, 16, pow16((k - 1) as nat) as int);
        }
        lemma_unhex_hex_digits(n / 16, (k - 1) as nat);
        assert(hex_val(hex_digit(n % 16)) == n % 16);
        assert(n == 16 * ((n as int) / 16) + (n as int) % 16) by {
            lemma_fundamental_div_mod(n as int, 16);
        }
    }
}

/// `16^16` is `2^64`: every `u64` has a unique sixteen-digit rendering.
proof fn lemma_pow16_16()
    ensures
        pow16(16) == 0x10000000000000000,
{
    reveal_with_fuel(pow16, 17);
}

/// Two numbers below `16^k` with the same width-`k` digit string are the
/// same number.
proof fn lemma_hex_digits_injective(a: nat, b: nat, k: nat)
    requires
        a < pow16(k),
        b < pow16(k),
        hex_digits(a, k) == hex_digits(b, k),
    ensures
        a == b,
{
    lemma_unhex_hex_digits(a, k);
    lemma_unhex_hex_digits(b, k);
}

/// The text of one identifier: the node discriminant and the counter
/// value, each rendered as sixteen hexadecimal digits.
pub open spec fn id_chars(node: u64, counter: u64) -> Seq<char> {
    hex_digits(node as nat, 16) + hex_digits(counter as nat, 16)
}

/// Identifier texts agree only on an equal node discriminant and an
/// equal counter: the rendering is injective.
pub proof fn lemma_id_chars_injective(node1: u64, c1: u64, node2: u64, c2: u64)
    ensures
        id_chars(node1, c1) == id_chars(node2, c2) ==> node1 == node2 && c1 == c2,
{
    if id_chars(node1, c1) == id_chars(node2, c2) {
        lemma_hex_digits_len(node1 as nat, 16);
        lemma_hex_digits_len(node2 as nat, 16);
        lemma_hex_digits_len(c1 as nat, 16);
        lemma_hex_digits_len(c2 as nat, 16);
        assert(hex_digits(node1 as nat, 16) =~= id_chars(node1, c1).take(16));
        assert(hex_digits(node2 as nat, 16) =~= id_chars(node2, c2).take(16));
        assert(hex_digits(c1 as nat, 16) =~= id_chars(node1, c1).skip(16));
        assert(hex_digits(c2 as nat, 16) =~= id_chars(node2, c2).skip(16));
        lemma_pow16_16();
        lemma_hex_digits_injective(node1 as nat, node2 as nat, 16);
        lemma_hex_digits_injective(c1 as nat, c2 as nat, 16);
    }
}

/// Identifiers of generators with different node discriminants never
/// collide, whatever their counters hold.
pub proof fn lemma_distinct_nodes_never_collide(node1: u64, c1: u64, node2: u64, c2: u64)
    requires
        node1 != node2,
    ensures
        id_chars(node1, c1) != id_chars(node2, c2),
{
    lemma_id_chars_injective(node1, c1, node2, c2);
}

/// The digit character for `d`, as a one-character string slice.
fn hex_digit_str(d: u64) -> (s: &'static str)
    requires
        d < 16,
    ensures
        s@ =~= seq![hex_digit(d as nat)],
{
    proof {
        reveal_strlit("0");
        reveal_strlit("1");
        reveal_strlit("2");
        reveal_strlit("3");
        reveal_strlit("4");
        reveal_strlit("5");
        reveal_strlit("6");
        reveal_strlit("7");
        reveal_strlit("8");
        reveal_strlit("9");
        reveal_strlit("a");
        reveal_strlit("b");
        reveal_strlit("c");
        reveal_strlit("d");
        reveal_strlit("e");
        reveal_strlit("f");
    }
    if d == 0 {
        "0"
    } else if d == 1 {
        "1"
    } else if d == 2 {
        "2"
    } else if d == 3 {
        "3"
    } else if d == 4 {
        "4"
    } else if d == 5 {
        "5"
    } else if d == 6 {
        "6"
    } else if d == 7 {
        "7"
    } else if d == 8 {
        "8"
    } else if d == 9 {
        "9"
    } else if d == 10 {
        "a"
    } else if d == 11 {
        "b"
    } else if d == 12 {
        "c"
    } else if d == 13 {
        "d"
    } else if d == 14 {
        "e"
    } else {
        "f"
    }
}

/// Appends the `k` low hexadecimal digits of `n` to `out`, most
/// significant first.
fn push_hex(out: &mut String, n: u64, k: usize)
    ensures
        final(out)@ == old(out)@ + hex_digits(n as nat, k as nat),
    decreases k,
{
    if k == 0 {
        proof {
            assert(old(out)@ + hex_digits(n as nat, 0) =~= old(out)@);
        }
    } else {
        push_hex(out, n / 16, k - 1);
        let digit = hex_digit_str(n % 16);
        out.append(digit);
        proof {
            assert(final(out)@ =~= old(out)@ + hex_digits(n as nat, k as nat));
        }
    }
}

/// Renders one identifier.
fn render_id(node: u64, counter: u64) -> (s: String)
    ensures
        s@ == id_chars(node, counter),
{
    let mut s = String::new();
    push_hex(&mut s, node, 16);
    push_hex(&mut s, counter, 16);
    proof {
        assert(s@ =~= id_chars(node, counter));
    }
    s
}

/// A usage error of the document-identity function, reported to the
/// engine's caller rather than raised.
#[derive(Clone, Copy, Debug, PartialEq, Eq, Structural)]
pub enum DocIdError {
    /// The function takes exactly one column argument; it was handed
    /// `given` of them.
    WrongArgumentCount { given: usize },
}

/// A process-node-scoped source of unique identifiers: a node
/// discriminant plus a monotonic counter.
pub struct DocumentIdentityGenerator {
    node: u64,
    next: u64,
}

impl DocumentIdentityGenerator {
    /// The node discriminant this generator stamps into every identifier.
    pub closed spec fn spec_node(&self) -> u64 {
        self.node
    }

    /// The counter value the next identifier will be drawn from.
    pub closed spec fn spec_next(&self) -> u64 {
        self.next
    }

    /// How many identifiers this generator has issued: the counter the
    /// next one will be drawn from.
    pub fn counter(&self) -> (n: u64)
        ensures
            n == self.spec_next(),
    {
        self.next
    }

    /// A fresh generator for the given node discriminant.
    pub fn new(node: u64) -> (g: Self)
        ensures
            g.spec_node() == node,
            g.spec_next() == 0,
    {
        DocumentIdentityGenerator { node, next: 0 }
    }

    /// Issues one identifier per row: the texts of the next `row_count`
    /// counter values, pairwise distinct, and the counter moves past all
    /// of them so no later call can repeat one.
    pub fn generate(&mut self, row_count: usize) -> (ids: Vec<String>)
        requires
            old(self).spec_next() + row_count <= u64::MAX,
        ensures
            final(self).spec_node() == old(self).spec_node(),
            final(self).spec_next() == old(self).spec_next() + row_count,
            ids@.len() == row_count,
            forall|i: int|
                0 <= i < row_count ==> (#[trigger] ids@[i])@ == id_chars(
                    old(self).spec_node(),
                    (old(self).spec_next() + i) as u64,
                ),
            forall|i: int, j: int|
                0 <= i < row_count && 0 <= j < row_count && i != j ==> ids@[i]@ != ids@[j]@,
    {
        let ghost node = self.node;
        let ghost start = self.next;
        let mut ids: Vec<String> = Vec::new();
        let mut produced: usize = 0;
        while produced < row_count
            invariant
                self.node == node,
                start + row_count <= u64::MAX,
                produced <= row_count,
                self.next == start + produced,
                ids@.len() == produced,
                forall|i: int|
                    0 <= i < produced ==> (#[trigger] ids@[i])@ == id_chars(
                        node,
                        (start + i) as u64,
                    ),
            decreases row_count - produced,
        {
            let id = render_id(self.node, self.next);
            ids.push(id);
            self.next = self.next + 1;
            produced = produced + 1;
        }
        proof {
            assert forall|i: int, j: int|
                0 <= i < row_count && 0 <= j < row_count && i != j implies ids@[i]@
                != ids@[j]@ by {
                lemma_id_chars_injective(node, (start + i) as u64, node, (start + j) as u64);
            }
        }
        ids
    }

    /// The engine-facing entry: one identifier per row of the single
    /// column argument. Handed any other number of arguments it reports a
    /// usage error and issues nothing.
    pub fn doc_id_generator(&mut self, column_rows: &Vec<usize>) -> (r: Result<
        Vec<String>,
        DocIdError,
    >)
        requires
            column_rows@.len() == 1 ==> old(self).spec_next() + column_rows@[0] <= u64::MAX,
        ensures
            match r {
                Ok(ids) => {
                    &&& column_rows@.len() == 1
                    &&& final(self).spec_node() == old(self).spec_node()
                    &&& final(self).spec_next() == old(self).spec_next() + column_rows@[0]
                    &&& ids@.len() == column_rows@[0]
                    &&& forall|i: int|
                        0 <= i < ids@.len() ==> (#[trigger] ids@[i])@ == id_chars(
                            old(self).spec_node(),
                            (old(self).spec_next() + i) as u64,
                        )
                    &&& forall|i: int, j: int|
                        0 <= i < ids@.len() && 0 <= j < ids@.len() && i != j ==> ids@[i]@
                            != ids@[j]@
                },
                Err(e) => {
                    &&& column_rows@.len() != 1
                    &&& e == (DocIdError::WrongArgumentCount { given: column_rows@.len() as usize })
                    &&& *final(self) == *old(self)
                },
            },
    {
        if column_rows.len() == 1 {
            let rows = column_rows[0];
            Ok(self.generate(rows))
        } else {
            Err(DocIdError::WrongArgumentCount { given: column_rows.len() })
        }
    }
}

/// Identifiers of two successive invocations of one generator never
/// overlap: the later batch starts at or past the counter where the
/// earlier one ended, so every text of the first differs from every text
/// of the second.
pub proof fn lemma_successive_batches_disjoint(
    node: u64,
    first_start: u64,
    first: Seq<Seq<char>>,
    second_start: u64,
    second: Seq<Seq<char>>,
)
    requires
        first_start + first.len() <= second_start,
        second_start + second.len() <= u64::MAX + 1,
        forall|i: int|
            0 <= i < first.len() ==> #[trigger] first[i] == id_chars(
                node,
                (first_start + i) as u64,
            ),
        forall|j: int|
            0 <= j < second.len() ==> #[trigger] second[j] == id_chars(
                node,
                (second_start + j) as u64,
            ),
    ensures
        forall|i: int, j: int|
            0 <= i < first.len() && 0 <= j < second.len() ==> first[i] != second[j],
{
    assert forall|i: int, j: int|
        0 <= i < first.len() && 0 <= j < second.len() implies first[i] != second[j] by {
        lemma_id_chars_injective(node, (first_start + i) as u64, node, (second_start + j) as u64);
    }
}

/// How the engine's bootstrap registers a function in its catalog.
pub struct UdfRegistration {
    /// The reserved function name.
    pub name: String,
    /// How many column arguments the function takes.
    pub arity: usize,
    /// Volatile functions are recomputed on every evaluation: the engine
    /// must not cache, constant-fold, or reuse their results.
    pub volatile: bool,
}

/// The registration of the document-identity function: its reserved
/// catalog name, exactly one column argument, and volatile, since its
/// identifiers must differ on every invocation.
pub fn doc_id_udf_registration() -> (r: UdfRegistration)
    ensures
        r.name@ == "generate_doc_ids"@,
        r.arity == 1,
        r.volatile,
{
    UdfRegistration { name: String::from_str("generate_doc_ids"), arity: 1, volatile: true }
}

} // verus!
