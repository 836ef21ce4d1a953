use vstd::prelude::*;

verus! {

/// Whether `b` may stand between the `&` and the `;` of a reference such as
/// `&amp;`, `&#38;` or `&#x26;`.
pub open spec fn is_reference_byte(b: u8) -> bool {
    (0x30 <= b && b <= 0x39) || (0x41 <= b && b <= 0x5A) || (0x61 <= b && b <= 0x7A) || b
        == 0x23
}

/// Whether the `&` at `i` opens a reference: it is followed by one or more
/// reference bytes and then a `;`.
pub open spec fn starts_reference(s: Seq<u8>, i: int) -> bool {
    &&& 0 <= i < s.len()
    &&& s[i] == 0x26u8
    &&& exists|j: int|
        #![trigger s[j]]
        i + 1 < j < s.len() && s[j] == 0x3Bu8 && forall|k: int|
            i + 1 <= k < j ==> #[trigger] is_reference_byte(s[k])
}

/// What the byte at `i` becomes: a raw `&` becomes `&amp;`, every other byte
/// stays.
pub open spec fn escaped_byte(s: Seq<u8>, i: int) -> Seq<u8> {
    if s[i] == 0x26u8 && !starts_reference(s, i) {
        seq![0x26u8, 0x61u8, 0x6Du8, 0x70u8, 0x3Bu8]
    } else {
        seq![s[i]]
    }
}

/// The escaped form of the first `n` bytes of `s`.
pub open spec fn escaped_prefix(s: Seq<u8>, n: nat) -> Seq<u8>
    decreases n,
{
    if n == 0 || n > s.len() {
        Seq::empty()
    } else {
        escaped_prefix(s, (n - 1) as nat) + escaped_byte(s, n - 1)
    }
}

/// The text `s` with every `&` that opens no reference written `&amp;`.
pub open spec fn escaped(s: Seq<u8>) -> Seq<u8> {
    escaped_prefix(s, s.len())
}

fn is_reference_byte_exec(b: u8) -> (r: bool)
    ensures
        r == is_reference_byte(b),
{
    (0x30 <= b && b <= 0x39) || (0x41 <= b && b <= 0x5A) || (0x61 <= b && b <= 0x7A) || b
        == 0x23
}

/// Whether the `&` at `i` opens a reference.
fn opens_reference(s: &[u8], i: usize) -> (r: bool)
    requires
        i < s@.len(),
        s@[i as int] == 0x26u8,
    ensures
        r == starts_reference(s@, i as int),
{
    let mut j: usize = i + 1;
    while j < s.len() && is_reference_byte_exec(s[j])
        invariant
            i + 1 <= j <= s@.len(),
            forall|k: int| i + 1 <= k < j ==> #[trigger] is_reference_byte(s@[k]),
        decreases s@.len() - j,
    {
        j = j + 1;
    }
    let r = j > i + 1 && j < s.len() && s[j] == 0x3B;
    proof {
        if r {
            assert(s@[j as int] == 0x3Bu8);
        } else if starts_reference(s@, i as int) {
            let w = choose|w: int|
                #![trigger s@[w]]
                i + 1 < w < s@.len() && s@[w] == 0x3Bu8 && forall|k: int|
                    i + 1 <= k < w ==> #[trigger] is_reference_byte(s@[k]);
            if j < w {
                assert(is_reference_byte(s@[j as int]));
            } else if j > w {
                assert(is_reference_byte(s@[w]));
            }
        }
    }
    r
}

/// Rewrites every `&` of `s` that does not open a reference (such as `&amp;`
/// or `&#38;`) as `&amp;`, so that the text can be read as markup.
pub fn escape_ampersands(s: &[u8]) -> (r: Vec<u8>)
    ensures
        r@ == escaped(s@),
{
    let mut out: Vec<u8> = Vec::new();
    let mut i: usize = 0;
    while i < s.len()
        invariant
            i <= s@.len(),
            out@ == escaped_prefix(s@, i as nat),
        decreases s@.len() - i,
    {
        let b = s[i];
        if b == 0x26 && !opens_reference(s, i) {
            out.push(0x26);
            out.push(0x61);
            out.push(0x6D);
            out.push(0x70);
            out.push(0x3B);
        } else {
            out.push(b);
        }
        assert(escaped_prefix(s@, (i + 1) as nat) == escaped_prefix(s@, i as nat) + escaped_byte(
            s@,
            i as int,
        ));
        i = i + 1;
        assert(out@ =~= escaped_prefix(s@, i as nat));
    }
    out
}

} // verus!
