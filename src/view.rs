use vstd::prelude::*;
use vstd::std_specs::convert::FromSpec;
use vstd::std_specs::convert::FromSpecImpl;
use vstd::string::StringSliceAdditionalSpecFns;

verus! {

/// A read-only view of caller-owned bytes, bound to the borrow it was made
/// from. It owns nothing.
pub struct ConstByteSpan<'a> {
    data: &'a [u8],
}

impl<'a> View for ConstByteSpan<'a> {
    type V = Seq<u8>;

    closed spec fn view(&self) -> Seq<u8> {
        self.data@
    }
}

impl<'a> ConstByteSpan<'a> {
    /// The number of bytes in view.
    pub fn data_length(&self) -> (r: usize)
        ensures
            r == self@.len(),
    {
        self.data.len()
    }
}

impl<'a> From<&'a [u8]> for ConstByteSpan<'a> {
    fn from(slice: &'a [u8]) -> (r: ConstByteSpan<'a>)
        ensures
            r@ == slice@,
    {
        ConstByteSpan { data: slice }
    }
}

impl<'a> FromSpecImpl<&'a [u8]> for ConstByteSpan<'a> {
    open spec fn obeys_from_spec() -> bool {
        true
    }

    closed spec fn from_spec(slice: &'a [u8]) -> ConstByteSpan<'a> {
        ConstByteSpan { data: slice }
    }
}

impl<'a> From<ConstByteSpan<'a>> for &'a [u8] {
    fn from(span: ConstByteSpan<'a>) -> (r: &'a [u8])
        ensures
            r@ == span@,
    {
        span.data
    }
}

impl<'a> FromSpecImpl<ConstByteSpan<'a>> for &'a [u8] {
    open spec fn obeys_from_spec() -> bool {
        true
    }

    closed spec fn from_spec(span: ConstByteSpan<'a>) -> &'a [u8] {
        span.data
    }
}

/// A writable view of caller-owned bytes, bound to the exclusive borrow it
/// was made from. It owns nothing.
pub struct ByteSpan<'a> {
    data: &'a mut [u8],
}

impl<'a> View for ByteSpan<'a> {
    type V = Seq<u8>;

    closed spec fn view(&self) -> Seq<u8> {
        self.data@
    }
}

impl<'a> ByteSpan<'a> {
    /// The number of bytes in view.
    pub fn data_length(&self) -> (r: usize)
        ensures
            r == self@.len(),
    {
        self.data.len()
    }
}

impl<'a> From<&'a mut [u8]> for ByteSpan<'a> {
    fn from(slice: &'a mut [u8]) -> (r: ByteSpan<'a>)
        ensures
            r@ == old(slice)@,
    {
        ByteSpan { data: slice }
    }
}

// An exclusive borrow is moved, not copied, by these conversions, so no spec
// function pins the converted value; the `ensures` of `from` state what it holds.
impl<'a> FromSpecImpl<&'a mut [u8]> for ByteSpan<'a> {
    open spec fn obeys_from_spec() -> bool {
        false
    }

    closed spec fn from_spec(slice: &'a mut [u8]) -> ByteSpan<'a> {
        ByteSpan { data: slice }
    }
}

impl<'a> From<ByteSpan<'a>> for &'a mut [u8] {
    fn from(span: ByteSpan<'a>) -> (r: &'a mut [u8])
        ensures
            r@ == span@,
    {
        span.data
    }
}

impl<'a> FromSpecImpl<ByteSpan<'a>> for &'a mut [u8] {
    open spec fn obeys_from_spec() -> bool {
        false
    }

    closed spec fn from_spec(span: ByteSpan<'a>) -> &'a mut [u8] {
        span.data
    }
}

/// A length-delimited view of caller-owned UTF-8 text, bound to the borrow it
/// was made from. It owns nothing.
pub struct StringView<'a> {
    data: &'a str,
}

impl<'a> View for StringView<'a> {
    type V = Seq<u8>;

    closed spec fn view(&self) -> Seq<u8> {
        self.data.spec_bytes()
    }
}

impl<'a> StringView<'a> {
    /// The number of bytes in view.
    pub fn size(&self) -> (r: usize)
        ensures
            r == self@.len(),
    {
        self.data.as_bytes().len()
    }

    /// The text in view.
    pub fn as_str(&self) -> (r: &'a str)
        ensures
            r.spec_bytes() == self@,
    {
        self.data
    }
}

impl<'a> From<&'a str> for StringView<'a> {
    fn from(s: &'a str) -> (r: StringView<'a>)
        ensures
            r@ == s.spec_bytes(),
    {
        StringView { data: s }
    }
}

impl<'a> FromSpecImpl<&'a str> for StringView<'a> {
    open spec fn obeys_from_spec() -> bool {
        true
    }

    closed spec fn from_spec(s: &'a str) -> StringView<'a> {
        StringView { data: s }
    }
}

impl<'a> From<StringView<'a>> for &'a str {
    fn from(view: StringView<'a>) -> (r: &'a str)
        ensures
            r.spec_bytes() == view@,
    {
        view.data
    }
}

impl<'a> FromSpecImpl<StringView<'a>> for &'a str {
    open spec fn obeys_from_spec() -> bool {
        true
    }

    closed spec fn from_spec(view: StringView<'a>) -> &'a str {
        view.data
    }
}

/// Marshaling a byte slice or a string to a view and back gives the same
/// bytes and the same length, and the view itself shows exactly those bytes.
pub proof fn lemma_view_round_trip<'a>(bytes: &'a [u8], text: &'a str)
    ensures
        <ConstByteSpan<'a> as FromSpec<&'a [u8]>>::from_spec(bytes)@ == bytes@,
        <&'a [u8] as FromSpec<ConstByteSpan<'a>>>::from_spec(
            <ConstByteSpan<'a> as FromSpec<&'a [u8]>>::from_spec(bytes),
        )@ == bytes@,
        <StringView<'a> as FromSpec<&'a str>>::from_spec(text)@ == text.spec_bytes(),
        <&'a str as FromSpec<StringView<'a>>>::from_spec(
            <StringView<'a> as FromSpec<&'a str>>::from_spec(text),
        ).spec_bytes() == text.spec_bytes(),
{
}

} // verus!
