use vstd::prelude::*;

verus! {

/// The bytes that `u8::is_ascii_whitespace` accepts: space, tab, line feed,
/// form feed and carriage return.
pub open spec fn is_ascii_ws(b: u8) -> bool {
    b == 0x20u8 || b == 0x09u8 || b == 0x0Au8 || b == 0x0Cu8 || b == 0x0Du8
}

/// `s` without its leading ASCII whitespace.
pub open spec fn trim_start(s: Seq<u8>) -> Seq<u8>
    decreases s.len(),
{
    if s.len() > 0 && is_ascii_ws(s[0]) {
        trim_start(s.drop_first())
    } else {
        s
    }
}

/// `s` without its trailing ASCII whitespace.
pub open spec fn trim_end(s: Seq<u8>) -> Seq<u8>
    decreases s.len(),
{
    if s.len() > 0 && is_ascii_ws(s.last()) {
        trim_end(s.drop_last())
    } else {
        s
    }
}

/// `s` without leading or trailing ASCII whitespace.
pub open spec fn trimmed(s: Seq<u8>) -> Seq<u8> {
    trim_end(trim_start(s))
}

/// Bytes that are all spaces.
pub open spec fn all_spaces(pad: Seq<u8>) -> bool {
    forall|i: int| 0 <= i < pad.len() ==> pad[i] == 32u8
}

proof fn lemma_trim_start_spaces(pad: Seq<u8>)
    requires
        all_spaces(pad),
    ensures
        trim_start(pad).len() == 0,
    decreases pad.len(),
{
    if pad.len() > 0 {
        lemma_trim_start_spaces(pad.drop_first());
    }
}

proof fn lemma_trim_end_spaces(s: Seq<u8>, pad: Seq<u8>)
    requires
        all_spaces(pad),
    ensures
        trim_end(s + pad) == trim_end(s),
    decreases pad.len(),
{
    if pad.len() == 0 {
        assert(s + pad =~= s);
    } else {
        assert((s + pad).drop_last() =~= s + pad.drop_last());
        assert((s + pad).last() == pad.last());
        lemma_trim_end_spaces(s, pad.drop_last());
    }
}

proof fn lemma_trim_start_spaces_after(s: Seq<u8>, pad: Seq<u8>)
    requires
        all_spaces(pad),
    ensures
        trim_start(s).len() > 0 ==> trim_start(s + pad) == trim_start(s) + pad,
        trim_start(s).len() == 0 ==> trim_start(s + pad).len() == 0,
    decreases s.len(),
{
    if s.len() == 0 {
        assert(s + pad =~= pad);
        lemma_trim_start_spaces(pad);
    } else {
        assert((s + pad)[0] == s[0]);
        if is_ascii_ws(s[0]) {
            assert((s + pad).drop_first() =~= s.drop_first() + pad);
            lemma_trim_start_spaces_after(s.drop_first(), pad);
        }
    }
}

/// Spaces after a byte string do not change it once trimmed.
pub proof fn lemma_trim_ignores_padding(s: Seq<u8>, pad: Seq<u8>)
    requires
        all_spaces(pad),
    ensures
        trimmed(s + pad) == trimmed(s),
{
    lemma_trim_start_spaces_after(s, pad);
    if trim_start(s).len() > 0 {
        lemma_trim_end_spaces(trim_start(s), pad);
    } else {
        assert(trim_start(s + pad) =~= Seq::<u8>::empty());
        assert(trim_start(s) =~= Seq::<u8>::empty());
    }
}

/// Tells whether `b` is ASCII whitespace.
pub fn is_ascii_whitespace_byte(b: u8) -> (r: bool)
    ensures
        r == is_ascii_ws(b),
{
    b == 0x20u8 || b == 0x09u8 || b == 0x0Au8 || b == 0x0Cu8 || b == 0x0Du8
}

/// Copies `s` without its leading and trailing ASCII whitespace.
pub fn trim_bytes(s: &[u8]) -> (r: Vec<u8>)
    ensures
        r@ == trimmed(s@),
{
    let len = s.len();
    let mut from: usize = 0;
    assert(s@.subrange(0, len as int) =~= s@);
    while from < len && is_ascii_whitespace_byte(s[from])
        invariant
            len == s@.len(),
            from <= len,
            trim_start(s@.subrange(from as int, len as int)) == trim_start(s@),
        decreases len - from,
    {
        assert(s@.subrange(from as int, len as int).drop_first() =~= s@.subrange(
            from as int + 1,
            len as int,
        ));
        from = from + 1;
    }
    assert(s@.subrange(from as int, len as int) == trim_start(s@));
    let mut to: usize = len;
    while to > from && is_ascii_whitespace_byte(s[to - 1])
        invariant
            len == s@.len(),
            from <= to <= len,
            trim_end(s@.subrange(from as int, to as int)) == trimmed(s@),
        decreases to,
    {
        assert(s@.subrange(from as int, to as int).drop_last() =~= s@.subrange(
            from as int,
            to as int - 1,
        ));
        to = to - 1;
    }
    let mut r: Vec<u8> = Vec::new();
    let mut i: usize = from;
    while i < to
        invariant
            len == s@.len(),
            from <= i <= to <= len,
            r@ =~= s@.subrange(from as int, i as int),
        decreases to - i,
    {
        r.push(s[i]);
        i = i + 1;
    }
    r
}

/// Byte strings that can be read without their surrounding ASCII whitespace.
pub trait TrimAsciiWhitespace {
    /// The bytes of `self`.
    spec fn byte_view(&self) -> Seq<u8>;

    /// The bytes of `self` without leading or trailing ASCII whitespace.
    fn trim_ascii_whitespace(&self) -> (r: Vec<u8>)
        ensures
            r@ == trimmed(self.byte_view()),
    ;
}

impl<const N: usize> TrimAsciiWhitespace for [u8; N] {
    open spec fn byte_view(&self) -> Seq<u8> {
        self@
    }

    fn trim_ascii_whitespace(&self) -> (r: Vec<u8>) {
        trim_bytes(self.as_slice())
    }
}

impl TrimAsciiWhitespace for Vec<u8> {
    open spec fn byte_view(&self) -> Seq<u8> {
        self@
    }

    fn trim_ascii_whitespace(&self) -> (r: Vec<u8>) {
        trim_bytes(self.as_slice())
    }
}

} // verus!
