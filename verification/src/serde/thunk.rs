//! Values whose processing is delayed until asked for.

use vstd::prelude::*;
use vstd::utf8::{decode_utf8, encode_utf8, valid_utf8};
use crate::encoding::{
    base64_decode, base64_decoded, base64_encode, base64_encoded, percent_decode, percent_decoded,
    percent_encode, percent_encoded, EncodeSet, lemma_percent_roundtrip, no_percent_escape,
};
use crate::text::string_from_utf8;

verus! {

/// The errors that can occur while processing a [`Thunk`].
#[derive(Debug, Clone, Copy, PartialEq, Eq)]
pub enum ProcessError {
    /// The processed bytes were not UTF-8.
    Utf8,
    /// The processed bytes were not UTF-8, found after a buffer for them was allocated.
    FromUtf8,
    /// The input was not valid base64.
    Base64,
    /// A number could not be parsed.
    IntParse,
    /// A comma separated list had the wrong number of items.
    IncorrectLength { expected: usize },
    /// The value cannot be represented in RobTop's data format.
    Unrepresentable,
}

/// How the raw text of a [`Thunk`] is turned into a processed value and back.
pub trait ThunkProcessor {
    /// The processed value.
    type Output;
    /// The abstract value of a processed value.
    type Abstract;
    /// The error processing can fail with.
    type Error;

    /// The abstract value of a processed value.
    spec fn output_view(processed: Self::Output) -> Self::Abstract;

    /// What processing the raw text gives (`None`: processing fails).
    spec fn decoded(raw: Seq<char>) -> Option<Self::Abstract>;

    /// The raw text a processed value is written as (`None`: it cannot be written).
    spec fn encoded(processed: Self::Abstract) -> Option<Seq<char>>;

    /// Whether the processed value is read back from the raw text it is written as (it holds
    /// nothing the raw format cannot tell apart).
    spec fn reads_back(processed: Self::Abstract) -> bool;

    /// Whether `e` is the error processing the raw text fails with.
    spec fn process_error(raw: Seq<char>, e: Self::Error) -> bool;

    /// Whether `e` is the error writing the processed value fails with.
    spec fn write_error(processed: Self::Abstract, e: Self::Error) -> bool;

    /// Processes raw text.
    fn from_unprocessed(unprocessed: &str) -> (res: Result<Self::Output, Self::Error>)
        ensures
            match res {
                Ok(o) => Self::decoded(unprocessed@) == Some(Self::output_view(o)),
                Err(e) => Self::decoded(unprocessed@) is None && Self::process_error(unprocessed@, e),
            },
    ;

    /// Turns a processed value back into raw text, which processing reads back as the value where
    /// [`ThunkProcessor::reads_back`] holds of it.
    fn as_unprocessed(processed: &Self::Output) -> (res: Result<String, Self::Error>)
        ensures
            match res {
                Ok(s) => {
                    &&& Self::encoded(Self::output_view(*processed)) == Some(s@)
                    &&& Self::reads_back(Self::output_view(*processed)) ==> Self::decoded(s@)
                        == Some(Self::output_view(*processed))
                },
                Err(e) => Self::encoded(Self::output_view(*processed)) is None && Self::write_error(
                    Self::output_view(*processed),
                    e,
                ),
            },
    ;

    /// A copy of a processed value.
    fn copy_output(processed: &Self::Output) -> (res: Self::Output)
        ensures
            Self::output_view(res) == Self::output_view(*processed),
    ;
}

/// A value whose further processing has been delayed: either the raw text it was read from, or the
/// processed value.
#[derive(Debug, Clone, PartialEq)]
pub enum Thunk<C: ThunkProcessor> {
    Unprocessed(String),
    Processed(C::Output),
}

/// The abstract value of a [`Thunk`].
pub enum ThunkView<V> {
    Unprocessed(Seq<char>),
    Processed(V),
}

impl<C: ThunkProcessor> View for Thunk<C> {
    type V = ThunkView<C::Abstract>;

    open spec fn view(&self) -> Self::V {
        match self {
            Thunk::Unprocessed(s) => ThunkView::Unprocessed(s@),
            Thunk::Processed(o) => ThunkView::Processed(C::output_view(*o)),
        }
    }
}

/// The processed value a thunk stands for (`None`: processing fails).
pub open spec fn thunk_value<C: ThunkProcessor>(t: ThunkView<C::Abstract>) -> Option<
    C::Abstract,
> {
    match t {
        ThunkView::Unprocessed(s) => C::decoded(s),
        ThunkView::Processed(v) => Some(v),
    }
}

/// Whether a thunk is read back from the raw text it is written as: always for raw text, and for
/// a processed value where the processor reads it back.
pub open spec fn thunk_reads_back<C: ThunkProcessor>(t: ThunkView<C::Abstract>) -> bool {
    match t {
        ThunkView::Unprocessed(_) => true,
        ThunkView::Processed(v) => C::reads_back(v),
    }
}

/// The raw text a thunk is written as (`None`: it cannot be written).
pub open spec fn thunk_text<C: ThunkProcessor>(t: ThunkView<C::Abstract>) -> Option<
    Seq<char>,
> {
    match t {
        ThunkView::Unprocessed(s) => Some(s),
        ThunkView::Processed(v) => C::encoded(v),
    }
}

impl<C: ThunkProcessor> Thunk<C> {
    /// Processes the raw text if that has not happened yet, and gives access to the processed
    /// value. When processing fails the raw text is gone: the thunk then holds an empty text.
    pub fn process(&mut self) -> (res: Result<&mut C::Output, C::Error>)
        ensures
            match res {
                Ok(r) => Some(C::output_view(*r)) == thunk_value::<C>(old(self)@) && final(self)@
                    == ThunkView::<C::Abstract>::Processed(C::output_view(*final(r))),
                Err(e) => thunk_value::<C>(old(self)@) is None && final(self)@
                    == ThunkView::<C::Abstract>::Unprocessed(Seq::empty()) && (old(
                    self,
                )@ matches ThunkView::Unprocessed(raw) && C::process_error(raw, e)),
            },
    {
        if let Thunk::Unprocessed(raw) = self {
            let mut raw_data = String::new();
            std::mem::swap(raw, &mut raw_data);
            match C::from_unprocessed(raw_data.as_str()) {
                Ok(o) => {
                    *self = Thunk::Processed(o);
                },
                Err(e) => {
                    return Err(e);
                },
            }
        }
        match self {
            Thunk::Processed(p) => Ok(p),
            Thunk::Unprocessed(_) => vstd::pervasive::unreached(),
        }
    }

    /// The raw text this thunk is written as, from which it reads back the value it stands for
    /// where [`thunk_reads_back`] holds.
    pub fn as_unprocessed(&self) -> (res: Result<String, C::Error>)
        ensures
            match res {
                Ok(s) => {
                    &&& thunk_text::<C>(self@) == Some(s@)
                    &&& thunk_reads_back::<C>(self@) ==> C::decoded(s@) == thunk_value::<C>(self@)
                },
                Err(e) => thunk_text::<C>(self@) is None && (self@ matches ThunkView::Processed(v)
                    && C::write_error(v, e)),
            },
    {
        match self {
            Thunk::Unprocessed(unprocessed) => Ok(unprocessed.clone()),
            Thunk::Processed(content) => C::as_unprocessed(content),
        }
    }

    /// The processed value, consuming the thunk.
    pub fn into_processed(self) -> (res: Result<C::Output, C::Error>)
        ensures
            match res {
                Ok(o) => thunk_value::<C>(self@) == Some(C::output_view(o)),
                Err(e) => thunk_value::<C>(self@) is None && (self@ matches ThunkView::Unprocessed(raw)
                    && C::process_error(raw, e)),
            },
    {
        match self {
            Thunk::Unprocessed(unprocessed) => C::from_unprocessed(unprocessed.as_str()),
            Thunk::Processed(p) => Ok(p),
        }
    }

    /// The processed value, leaving the thunk as it is.
    pub fn as_processed(&self) -> (res: Result<C::Output, C::Error>)
        ensures
            match res {
                Ok(o) => thunk_value::<C>(self@) == Some(C::output_view(o)),
                Err(e) => thunk_value::<C>(self@) is None && (self@ matches ThunkView::Unprocessed(raw)
                    && C::process_error(raw, e)),
            },
    {
        match self {
            Thunk::Unprocessed(unprocessed) => C::from_unprocessed(unprocessed.as_str()),
            Thunk::Processed(processed) => Ok(C::copy_output(processed)),
        }
    }
}

/// Processes percent encoded text, writing it back with the characters RobTop encodes.
#[derive(Debug, Clone, Copy, PartialEq, Eq)]
pub struct PercentDecoder;

impl ThunkProcessor for PercentDecoder {
    type Output = String;
    type Abstract = Seq<char>;
    type Error = ProcessError;

    open spec fn output_view(processed: String) -> Seq<char> {
        processed@
    }

    open spec fn decoded(raw: Seq<char>) -> Option<Seq<char>> {
        if valid_utf8(percent_decoded(encode_utf8(raw))) {
            Some(decode_utf8(percent_decoded(encode_utf8(raw))))
        } else {
            None
        }
    }

    open spec fn encoded(processed: Seq<char>) -> Option<Seq<char>> {
        Some(percent_encoded(encode_utf8(processed), EncodeSet::Robtop))
    }

    open spec fn reads_back(processed: Seq<char>) -> bool {
        no_percent_escape(encode_utf8(processed))
    }

    open spec fn process_error(raw: Seq<char>, e: ProcessError) -> bool {
        e == ProcessError::Utf8
    }

    open spec fn write_error(processed: Seq<char>, e: ProcessError) -> bool {
        false
    }

    fn from_unprocessed(unprocessed: &str) -> (res: Result<String, ProcessError>) {
        match percent_decode(unprocessed) {
            Some(s) => Ok(s),
            None => Err(ProcessError::Utf8),
        }
    }

    fn as_unprocessed(processed: &String) -> (res: Result<String, ProcessError>) {
        proof {
            if no_percent_escape(encode_utf8(processed@)) {
                lemma_percent_decoder_roundtrip(processed@);
            }
        }
        Ok(percent_encode(processed.as_str(), EncodeSet::Robtop))
    }

    fn copy_output(processed: &String) -> (res: String) {
        processed.clone()
    }
}

/// A percent decoded string, written back with every character but letters and digits encoded.
#[derive(Debug, Clone, PartialEq, Eq)]
pub struct PercentDecoded(pub String);

impl ThunkProcessor for PercentDecoded {
    type Output = PercentDecoded;
    type Abstract = Seq<char>;
    type Error = ProcessError;

    open spec fn output_view(processed: PercentDecoded) -> Seq<char> {
        processed.0@
    }

    open spec fn decoded(raw: Seq<char>) -> Option<Seq<char>> {
        if valid_utf8(percent_decoded(encode_utf8(raw))) {
            Some(decode_utf8(percent_decoded(encode_utf8(raw))))
        } else {
            None
        }
    }

    open spec fn encoded(processed: Seq<char>) -> Option<Seq<char>> {
        Some(percent_encoded(encode_utf8(processed), EncodeSet::NonAlphanumeric))
    }

    open spec fn reads_back(processed: Seq<char>) -> bool {
        true
    }

    open spec fn process_error(raw: Seq<char>, e: ProcessError) -> bool {
        e == ProcessError::Utf8
    }

    open spec fn write_error(processed: Seq<char>, e: ProcessError) -> bool {
        false
    }

    fn from_unprocessed(unprocessed: &str) -> (res: Result<PercentDecoded, ProcessError>) {
        match percent_decode(unprocessed) {
            Some(s) => Ok(PercentDecoded(s)),
            None => Err(ProcessError::Utf8),
        }
    }

    fn as_unprocessed(processed: &PercentDecoded) -> (res: Result<String, ProcessError>) {
        proof {
            lemma_percent_decoded_roundtrip(processed.0@);
        }
        Ok(percent_encode(processed.0.as_str(), EncodeSet::NonAlphanumeric))
    }

    fn copy_output(processed: &PercentDecoded) -> (res: PercentDecoded) {
        PercentDecoded(processed.0.clone())
    }
}

/// Processes URL-safe base64 encoded UTF-8 text.
#[derive(Debug, Clone, Copy, PartialEq, Eq)]
pub struct Base64Decoder;

impl ThunkProcessor for Base64Decoder {
    type Output = String;
    type Abstract = Seq<char>;
    type Error = ProcessError;

    open spec fn output_view(processed: String) -> Seq<char> {
        processed@
    }

    open spec fn decoded(raw: Seq<char>) -> Option<Seq<char>> {
        match base64_decoded(raw) {
            Some(bytes) => if valid_utf8(bytes) {
                Some(decode_utf8(bytes))
            } else {
                None
            },
            None => None,
        }
    }

    open spec fn encoded(processed: Seq<char>) -> Option<Seq<char>> {
        Some(base64_encoded(encode_utf8(processed)))
    }

    open spec fn reads_back(processed: Seq<char>) -> bool {
        true
    }

    open spec fn process_error(raw: Seq<char>, e: ProcessError) -> bool {
        e == if base64_decoded(raw) is None {
            ProcessError::Base64
        } else {
            ProcessError::FromUtf8
        }
    }

    open spec fn write_error(processed: Seq<char>, e: ProcessError) -> bool {
        false
    }

    fn from_unprocessed(unprocessed: &str) -> (res: Result<String, ProcessError>)
        ensures
            res matches Err(e) ==> (e == ProcessError::Base64 <==> base64_decoded(unprocessed@) is None),
    {
        match base64_decode(unprocessed) {
            Some(bytes) => match string_from_utf8(bytes) {
                Some(s) => Ok(s),
                None => Err(ProcessError::FromUtf8),
            },
            None => Err(ProcessError::Base64),
        }
    }

    fn as_unprocessed(processed: &String) -> (res: Result<String, ProcessError>) {
        let res = base64_encode(processed.as_str().as_bytes());
        proof {
            lemma_base64_thunk_roundtrip(processed@);
        }
        Ok(res)
    }

    fn copy_output(processed: &String) -> (res: String) {
        processed.clone()
    }
}

/// Base64 encoded text reads back as itself.
pub proof fn lemma_base64_thunk_roundtrip(text: Seq<char>)
    requires
        base64_decoded(base64_encoded(encode_utf8(text))) == Some(encode_utf8(text)),
    ensures
        Base64Decoder::decoded(Base64Decoder::encoded(text)->0) == Some(text),
{
    vstd::utf8::encode_utf8_valid_utf8(text);
    vstd::utf8::encode_utf8_decode_utf8(text);
}

/// A link written with RobTop's percent encoding reads back as itself, provided no `%` in its
/// bytes is followed by two hexadecimal digits (RobTop's set leaves `%` as it is).
pub proof fn lemma_percent_decoder_roundtrip(text: Seq<char>)
    requires
        no_percent_escape(encode_utf8(text)),
    ensures
        PercentDecoder::decoded(PercentDecoder::encoded(text)->0) == Some(text),
{
    lemma_percent_roundtrip(text, EncodeSet::Robtop);
}

/// A string written with every character but letters and digits percent encoded reads back as
/// itself.
pub proof fn lemma_percent_decoded_roundtrip(text: Seq<char>)
    ensures
        PercentDecoded::decoded(PercentDecoded::encoded(text)->0) == Some(text),
{
    lemma_percent_roundtrip(text, EncodeSet::NonAlphanumeric);
}

} // verus!
