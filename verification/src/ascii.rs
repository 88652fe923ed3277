//! ASCII strings: byte strings whose every byte is below 128.
use vstd::prelude::*;
use vstd::string::StringSliceAdditionalSpecFns;
use vstd::utf8::{valid_utf8, encode_utf8, partial_valid_utf8, partial_valid_utf8_extend_ascii_block};

verus! {

/// The error of bytes that are not all ASCII.
#[derive(Debug)]
pub struct NonAsciiPattern(());

impl NonAsciiPattern {
    /// The text this error displays as.
    pub fn message(&self) -> (r: &'static str)
        ensures
            r@ == "Non ascii data"@,
    {
        "Non ascii data"
    }

    /// The text this error shows when debugged: its name, with its contents
    /// left out.
    pub fn debug_text(&self) -> (r: &'static str)
        ensures
            r@ == "NonAsciiPattern { .. }"@,
    {
        "NonAsciiPattern { .. }"
    }
}

/// Whether every byte of `b` is ASCII.
pub open spec fn is_ascii_bytes(b: Seq<u8>) -> bool {
    forall|i: int| 0 <= i < b.len() ==> #[trigger] b[i] < 128
}

/// ASCII bytes are valid UTF-8.
pub proof fn lemma_ascii_valid_utf8(b: Seq<u8>)
    requires
        is_ascii_bytes(b),
    ensures
        valid_utf8(b),
{
    assert(b.subrange(0, 0) =~= Seq::<u8>::empty());
    assert(partial_valid_utf8(b, 0));
    partial_valid_utf8_extend_ascii_block(b, 0, b.len() as int);
    assert(b.subrange(0, b.len() as int) =~= b);
}

/// `core::str::from_utf8`: the bytes read as a string.
///
/// Claims what std documents: the bytes are accepted exactly when they are
/// valid UTF-8, and the string then has exactly those bytes.
#[verifier::external_body]
pub(crate) fn utf8_str(v: &[u8]) -> (r: Option<&str>)
    ensures
        r is Some <==> valid_utf8(v@),
        r matches Some(s) ==> s.spec_bytes() == v@,
{
    core::str::from_utf8(v).ok()
}

/// Whether every byte of `b` is ASCII, checked byte by byte.
fn all_ascii(b: &[u8]) -> (r: bool)
    ensures
        r == is_ascii_bytes(b@),
{
    let mut i: usize = 0;
    while i < b.len()
        invariant
            i <= b@.len(),
            forall|j: int| 0 <= j < i ==> b@[j] < 128,
        decreases b@.len() - i,
    {
        if b[i] >= 128 {
            return false;
        }
        i = i + 1;
    }
    true
}

/// An ASCII-encoded string: a stricter encoding than `str`.
pub struct AStr<'a>(&'a [u8]);

impl<'a> View for AStr<'a> {
    type V = Seq<u8>;

    closed spec fn view(&self) -> Seq<u8> {
        self.0@
    }
}

impl<'a> AStr<'a> {
    /// Every byte is ASCII.
    #[verifier::type_invariant]
    spec fn inv(self) -> bool {
        is_ascii_bytes(self.0@)
    }

    /// The bytes of the string.
    pub fn as_bytes(&self) -> (r: &'a [u8])
        ensures
            r@ == self@,
            is_ascii_bytes(r@),
    {
        proof { use_type_invariant(self); }
        self.0
    }

    /// The string itself.
    pub fn as_astr(&self) -> (r: &AStr<'a>)
        ensures
            r@ == self@,
    {
        self
    }

    /// The bytes as an ASCII string: refused exactly when a byte is not
    /// ASCII.
    pub fn from_bytes(bytes: &'a [u8]) -> (r: Result<AStr<'a>, NonAsciiPattern>)
        ensures
            r is Ok <==> is_ascii_bytes(bytes@),
            r matches Ok(a) ==> a@ == bytes@,
            r == astr_try_from(bytes),
    {
        if !all_ascii(bytes) {
            return Err(NonAsciiPattern(()));
        }
        Ok(AStr(bytes))
    }

    /// The bytes as an ASCII string, without checking: they must be ASCII.
    pub fn from_bytes_unchecked(bytes: &'a [u8]) -> (r: AStr<'a>)
        requires
            is_ascii_bytes(bytes@),
        ensures
            r@ == bytes@,
    {
        AStr(bytes)
    }

    /// The string as a `str`, which has the same bytes.
    pub fn as_str(&self) -> (r: &'a str)
        ensures
            r.spec_bytes() == self@,
    {
        proof {
            use_type_invariant(self);
            lemma_ascii_valid_utf8(self.0@);
        }
        match utf8_str(self.0) {
            Some(s) => s,
            None => {
                assert(false);
                ""
            },
        }
    }

    /// The `str`'s bytes as an ASCII string: refused exactly when it is not
    /// ASCII.
    pub fn try_from_str(value: &'a str) -> (r: Result<AStr<'a>, NonAsciiPattern>)
        ensures
            r is Ok <==> is_ascii_bytes(value.spec_bytes()),
            r matches Ok(a) ==> a@ == value.spec_bytes(),
    {
        AStr::from_bytes(value.as_bytes())
    }

    /// The empty string.
    pub fn empty() -> (r: AStr<'a>)
        ensures
            r@.len() == 0,
    {
        let e: &'a [u8] = &[];
        AStr(e)
    }
}

impl<'a> Default for AStr<'a> {
    /// The empty string.
    fn default() -> (r: AStr<'a>)
        ensures
            r@.len() == 0,
    {
        AStr::empty()
    }
}

/// What converting `bytes` into an [`AStr`] gives.
pub closed spec fn astr_try_from(bytes: &[u8]) -> Result<AStr<'_>, NonAsciiPattern> {
    if is_ascii_bytes(bytes@) {
        Ok(AStr(bytes))
    } else {
        Err(NonAsciiPattern(()))
    }
}

impl<'a> TryFrom<&'a [u8]> for AStr<'a> {
    type Error = NonAsciiPattern;

    fn try_from(value: &'a [u8]) -> (r: Result<AStr<'a>, NonAsciiPattern>)
        ensures
            r is Ok <==> is_ascii_bytes(value@),
            r matches Ok(a) ==> a@ == value@,
    {
        AStr::from_bytes(value)
    }
}

impl<'a> vstd::std_specs::convert::TryFromSpecImpl<&'a [u8]> for AStr<'a> {
    open spec fn obeys_try_from_spec() -> bool {
        true
    }

    open spec fn try_from_spec(v: &'a [u8]) -> Result<AStr<'a>, NonAsciiPattern> {
        astr_try_from(v)
    }
}

/// An owned ASCII string.
pub struct AsciiString(Vec<u8>);

impl View for AsciiString {
    type V = Seq<u8>;

    closed spec fn view(&self) -> Seq<u8> {
        self.0@
    }
}

impl AsciiString {
    /// Every byte is ASCII.
    #[verifier::type_invariant]
    spec fn inv(self) -> bool {
        is_ascii_bytes(self.0@)
    }

    /// The string, borrowed.
    pub fn as_astr(&self) -> (r: AStr<'_>)
        ensures
            r@ == self@,
    {
        proof { use_type_invariant(self); }
        AStr(self.0.as_slice())
    }

    /// The string, borrowed from a unique borrow.
    pub fn as_mut_astr(&mut self) -> (r: AStr<'_>)
        ensures
            r@ == old(self)@,
    {
        proof { use_type_invariant(&*self); }
        AStr(self.0.as_slice())
    }
}

/// Whether the debug rendering has no form for the ASCII byte `b`: a control
/// byte other than NUL, tab, line feed and carriage return.
pub open spec fn debug_unhandled(b: u8) -> bool {
    b < 0x20 && b != 0 && b != 9 && b != 10 && b != 13
}

/// Whether the debug rendering has a form for every byte of `s`.
pub open spec fn debug_printable(s: Seq<u8>) -> bool {
    forall|i: int| 0 <= i < s.len() ==> !debug_unhandled(#[trigger] s[i])
}

/// The bytes the debug rendering prints for one byte: the C-style escapes,
/// `\\` for a backslash, the byte itself when printable, nothing for DEL.
pub open spec fn escape_byte(b: u8) -> Seq<u8> {
    if b == 0 {
        seq![92u8, 48u8]
    } else if b == 9 {
        seq![92u8, 116u8]
    } else if b == 13 {
        seq![92u8, 114u8]
    } else if b == 10 {
        seq![92u8, 110u8]
    } else if b == 34 {
        seq![92u8, 34u8]
    } else if b == 39 {
        seq![92u8, 39u8]
    } else if b == 92 {
        seq![92u8, 92u8]
    } else if 0x20 <= b <= 0x7e {
        seq![b]
    } else {
        Seq::empty()
    }
}

/// The escapes of every byte of `s`, in order.
pub open spec fn escape_all(s: Seq<u8>) -> Seq<u8>
    decreases s.len(),
{
    if s.len() == 0 {
        Seq::empty()
    } else {
        escape_all(s.drop_last()) + escape_byte(s.last())
    }
}

/// The rendering of one byte is C-style: NUL, tab, carriage return, line
/// feed, the double quote, the single quote and the backslash are a backslash
/// followed by `0`, `t`, `r`, `n`, `"`, `'` and `\`; every other printable
/// byte is itself; DEL is left out.
pub proof fn lemma_escape_byte_c_style(b: u8)
    ensures
        b == 0 ==> escape_byte(b) == seq![0x5cu8, 0x30u8],
        b == 9 ==> escape_byte(b) == seq![0x5cu8, 0x74u8],
        b == 13 ==> escape_byte(b) == seq![0x5cu8, 0x72u8],
        b == 10 ==> escape_byte(b) == seq![0x5cu8, 0x6eu8],
        b == 0x22 ==> escape_byte(b) == seq![0x5cu8, 0x22u8],
        b == 0x27 ==> escape_byte(b) == seq![0x5cu8, 0x27u8],
        b == 0x5c ==> escape_byte(b) == seq![0x5cu8, 0x5cu8],
        0x20 <= b <= 0x7e && b != 0x22 && b != 0x27 && b != 0x5c ==> escape_byte(b) == seq![b],
        b == 0x7f ==> escape_byte(b).len() == 0,
{
}

/// The rendering goes byte by byte, the same wherever a byte stands: one
/// byte renders as its own escape, and two strings one after the other
/// render as the two renderings one after the other.
pub proof fn lemma_escape_all_per_byte(a: Seq<u8>, b: Seq<u8>, x: u8)
    ensures
        escape_all(seq![x]) == escape_byte(x),
        escape_all(a + b) == escape_all(a) + escape_all(b),
    decreases b.len(),
{
    let one = seq![x];
    assert(one.drop_last() =~= Seq::<u8>::empty());
    assert(one.last() == x);
    assert(escape_all(Seq::<u8>::empty()) == Seq::<u8>::empty());
    assert(escape_all(one) == escape_all(one.drop_last()) + escape_byte(one.last()));
    assert(escape_all(one) =~= escape_byte(x));
    if b.len() == 0 {
        assert(a + b =~= a);
        assert(escape_all(a) + escape_all(b) =~= escape_all(a));
    } else {
        lemma_escape_all_per_byte(a, b.drop_last(), x);
        assert((a + b).drop_last() =~= a + b.drop_last());
        assert((a + b).last() == b.last());
        assert(escape_all(a + b) == escape_all(a + b.drop_last()) + escape_byte(b.last()));
        assert(escape_all(a) + escape_all(b) =~= escape_all(a) + escape_all(b.drop_last())
            + escape_byte(b.last()));
    }
}

/// The debug rendering of an ASCII string: `a"`, the escaped bytes, `"`.
pub open spec fn debug_bytes(s: Seq<u8>) -> Seq<u8> {
    seq![97u8, 34u8] + escape_all(s) + seq![34u8]
}

proof fn lemma_escape_all_ascii(s: Seq<u8>)
    ensures
        is_ascii_bytes(escape_all(s)),
    decreases s.len(),
{
    if s.len() > 0 {
        lemma_escape_all_ascii(s.drop_last());
    }
}

/// Appends the escape of `b` to `out`.
fn push_escaped(out: &mut Vec<u8>, b: u8)
    ensures
        final(out)@ == old(out)@ + escape_byte(b),
{
    if b == 0 {
        out.push(92u8);
        out.push(48u8);
    } else if b == 9 {
        out.push(92u8);
        out.push(116u8);
    } else if b == 13 {
        out.push(92u8);
        out.push(114u8);
    } else if b == 10 {
        out.push(92u8);
        out.push(110u8);
    } else if b == 34 {
        out.push(92u8);
        out.push(34u8);
    } else if b == 39 {
        out.push(92u8);
        out.push(39u8);
    } else if b == 92 {
        out.push(92u8);
        out.push(92u8);
    } else if 0x20 <= b && b <= 0x7e {
        out.push(b);
    }
    assert(final(out)@ =~= old(out)@ + escape_byte(b));
}

impl<'a> AStr<'a> {
    /// The debug rendering of the string, as `{:?}` prints it: `a"`, each
    /// byte escaped, `"`. Control bytes other than NUL, tab, line feed and
    /// carriage return have no rendering.
    pub fn debug_text(&self) -> (r: String)
        requires
            debug_printable(self@),
        ensures
            encode_utf8(r@) == debug_bytes(self@),
    {
        let bytes = self.0;
        let mut out: Vec<u8> = Vec::new();
        out.push(97u8);
        out.push(34u8);
        let mut i: usize = 0;
        while i < bytes.len()
            invariant
                i <= bytes@.len(),
                out@ == seq![97u8, 34u8] + escape_all(bytes@.subrange(0, i as int)),
            decreases bytes@.len() - i,
        {
            push_escaped(&mut out, bytes[i]);
            assert(bytes@.subrange(0, i + 1).drop_last() =~= bytes@.subrange(0, i as int));
            i = i + 1;
        }
        out.push(34u8);
        assert(bytes@.subrange(0, bytes@.len() as int) =~= bytes@);
        assert(out@ =~= debug_bytes(self@));
        proof {
            lemma_escape_all_ascii(bytes@);
            assert(is_ascii_bytes(out@));
            lemma_ascii_valid_utf8(out@);
        }
        match utf8_str(out.as_slice()) {
            Some(s) => String::from_str(s),
            None => {
                assert(false);
                String::new()
            },
        }
    }
}

} // verus!
