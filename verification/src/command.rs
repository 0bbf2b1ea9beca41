//! From textual arguments to the byte strings of an argument vector.
//!
//! Image replacement takes each argument as null-terminated text: the bytes
//! of the argument followed by one zero byte. An argument that holds a zero
//! byte of its own cannot be written that way, and an empty argument list
//! names no executable. Both are refused here, before anything is asked of
//! the operating system.

use vstd::prelude::*;
use vstd::string::StringSliceAdditionalSpecFns;
use vstd::utf8::{
    char_is_scalar, encode_scalar, encode_utf8, has_width_1_encoding, last_continuation_byte,
    leading_byte_width_1, leading_byte_width_2, leading_byte_width_3, leading_byte_width_4,
    second_last_continuation_byte, third_last_continuation_byte,
};
use crate::error::{ErrorKind, NulError, TracersError};

verus! {

/// Whether `bytes` holds a zero byte.
pub open spec fn has_nul(bytes: Seq<u8>) -> bool {
    exists|i: int| 0 <= i < bytes.len() && bytes[i] == 0u8
}

/// Whether `text` holds the null character.
pub open spec fn has_nul_char(text: Seq<char>) -> bool {
    exists|i: int| 0 <= i < text.len() && text[i] == '\0'
}

/// Whether `position` is the index of the first zero byte of `bytes`.
pub open spec fn is_first_nul(bytes: Seq<u8>, position: int) -> bool {
    &&& 0 <= position < bytes.len()
    &&& bytes[position] == 0u8
    &&& forall|i: int| 0 <= i < position ==> bytes[i] != 0u8
}

/// Whether `text` is null-terminated text: it ends in a zero byte and holds
/// no other.
pub open spec fn is_terminated_text(text: Seq<u8>) -> bool {
    &&& text.len() > 0
    &&& text.last() == 0u8
    &&& !has_nul(text.drop_last())
}

/// The bytes that each argument is made of.
pub open spec fn argument_bytes(args: Seq<String>) -> Seq<Seq<u8>> {
    args.map_values(|arg: String| encode_utf8(arg@))
}

/// Whether an argument list can be turned into an argument vector: it names
/// at least the executable, and no argument holds a zero byte.
pub open spec fn encodable(args: Seq<Seq<u8>>) -> bool {
    &&& args.len() > 0
    &&& forall|i: int| 0 <= i < args.len() ==> !has_nul(#[trigger] args[i])
}

/// The argument vector of an argument list: every argument followed by a
/// zero byte, in the same order.
pub open spec fn encoded(args: Seq<Seq<u8>>) -> Seq<Seq<u8>> {
    args.map_values(|arg: Seq<u8>| arg.push(0u8))
}

/// Whether `argv` is an argument vector that image replacement accepts: it
/// is not empty, and every entry is null-terminated text.
pub open spec fn is_argument_vector(argv: Seq<Seq<u8>>) -> bool {
    &&& argv.len() > 0
    &&& forall|i: int| 0 <= i < argv.len() ==> is_terminated_text(#[trigger] argv[i])
}

/// Writes one argument as null-terminated text.
///
/// Succeeds exactly when the argument holds no zero byte; otherwise reports
/// where the first one stands.
pub fn encode_argument(arg: &str) -> (r: Result<Vec<u8>, NulError>)
    ensures
        match r {
            Ok(text) => !has_nul(arg.spec_bytes()) && text@ == arg.spec_bytes().push(0u8),
            Err(e) => is_first_nul(arg.spec_bytes(), e.position as int),
        },
{
    let bytes = arg.as_bytes();
    let mut text: Vec<u8> = Vec::new();
    let mut i: usize = 0;
    while i < bytes.len()
        invariant
            bytes@ == arg.spec_bytes(),
            i <= bytes@.len(),
            text@ == bytes@.subrange(0, i as int),
            forall|j: int| 0 <= j < i ==> bytes@[j] != 0u8,
        decreases bytes@.len() - i,
    {
        let byte: u8 = bytes[i];
        if byte == 0 {
            return Err(NulError { position: i });
        }
        text.push(byte);
        i += 1;
    }
    assert(text@ == bytes@);
    text.push(0);
    Ok(text)
}

/// A command ready for image replacement: a non-empty argument vector of
/// null-terminated texts, whose first entry names the executable.
#[derive(Debug, PartialEq, Eq)]
pub struct Command {
    argv: Vec<Vec<u8>>,
}

impl View for Command {
    type V = Seq<Seq<u8>>;

    closed spec fn view(&self) -> Seq<Seq<u8>> {
        self.argv@.map_values(|text: Vec<u8>| text@)
    }
}

impl Command {
    #[verifier::type_invariant]
    spec fn well_formed(self) -> bool {
        is_argument_vector(self@)
    }

    /// Converts an argument list into a command.
    ///
    /// Fails with [`ErrorKind::EncodingFailure`] exactly when the list is
    /// empty or one of its arguments holds a zero byte. Otherwise the
    /// command's argument vector is the list, each argument followed by a
    /// zero byte.
    pub fn encode(args: Vec<String>) -> (r: Result<Command, TracersError>)
        ensures
            match r {
                Ok(command) => {
                    &&& encodable(argument_bytes(args@))
                    &&& command@ == encoded(argument_bytes(args@))
                },
                Err(e) => {
                    &&& !encodable(argument_bytes(args@))
                    &&& e.kind == ErrorKind::EncodingFailure
                },
            },
    {
        let ghost source = argument_bytes(args@);
        if args.len() == 0 {
            return Err(TracersError::encoding_failure());
        }
        let mut argv: Vec<Vec<u8>> = Vec::new();
        let mut i: usize = 0;
        while i < args.len()
            invariant
                i <= args@.len(),
                source == argument_bytes(args@),
                argv@.len() == i,
                forall|j: int| 0 <= j < i ==> !has_nul(#[trigger] source[j]),
                forall|j: int| 0 <= j < i ==> (#[trigger] argv@[j])@ == source[j].push(0u8),
            decreases args@.len() - i,
        {
            match encode_argument(args[i].as_str()) {
                Ok(text) => {
                    argv.push(text);
                },
                Err(cause) => {
                    assert(has_nul(source[i as int]));
                    return Err(TracersError::from(cause));
                },
            }
            i += 1;
        }
        let command = Command { argv };
        assert(command@ =~= encoded(source));
        proof {
            lemma_encoded_is_argument_vector(source);
        }
        Ok(command)
    }

    /// The executable's path or name: the first entry of the argument
    /// vector.
    pub fn file(&self) -> (text: &Vec<u8>)
        ensures
            is_argument_vector(self@),
            text@ == self@[0],
    {
        proof {
            use_type_invariant(self);
        }
        &self.argv[0]
    }

    /// The whole argument vector, the executable's name included.
    pub fn argv(&self) -> (texts: &Vec<Vec<u8>>)
        ensures
            is_argument_vector(self@),
            texts@.map_values(|text: Vec<u8>| text@) == self@,
    {
        proof {
            use_type_invariant(self);
        }
        &self.argv
    }
}

/// An argument without a zero byte, followed by one, is null-terminated
/// text.
pub proof fn lemma_terminated(arg: Seq<u8>)
    requires
        !has_nul(arg),
    ensures
        is_terminated_text(arg.push(0u8)),
{
    assert(arg.push(0u8).drop_last() =~= arg);
}

/// The argument vector of an encodable argument list is one that image
/// replacement accepts. It is as long as the list, and dropping the last
/// byte of an entry gives back the argument it was made from.
pub proof fn lemma_encoded_is_argument_vector(args: Seq<Seq<u8>>)
    requires
        encodable(args),
    ensures
        is_argument_vector(encoded(args)),
        encoded(args).len() == args.len(),
        forall|i: int| 0 <= i < args.len() ==> #[trigger] encoded(args)[i].drop_last() == args[i],
{
    assert forall|i: int| 0 <= i < args.len() implies is_terminated_text(
        #[trigger] encoded(args)[i],
    ) && encoded(args)[i].drop_last() == args[i] by {
        lemma_terminated(args[i]);
        assert(args[i].push(0u8).drop_last() =~= args[i]);
    }
}

proof fn lemma_one_byte_scalar(scalar: u32)
    by (bit_vector)
    requires
        has_width_1_encoding(scalar),
    ensures
        leading_byte_width_1(scalar) == 0u8 <==> scalar == 0u32,
{
}

proof fn lemma_leading_bytes(scalar: u32)
    by (bit_vector)
    ensures
        leading_byte_width_2(scalar) != 0u8,
        leading_byte_width_3(scalar) != 0u8,
        leading_byte_width_4(scalar) != 0u8,
{
}

proof fn lemma_continuation_bytes(scalar: u32)
    by (bit_vector)
    ensures
        last_continuation_byte(scalar) != 0u8,
        second_last_continuation_byte(scalar) != 0u8,
        third_last_continuation_byte(scalar) != 0u8,
{
}

/// Only the null character has a zero byte in its encoding.
proof fn lemma_nul_in_scalar(c: char)
    ensures
        has_nul(encode_scalar(c as u32)) <==> c == '\0',
{
    let scalar = c as u32;
    let bytes = encode_scalar(scalar);
    char_is_scalar(c);
    lemma_leading_bytes(scalar);
    lemma_continuation_bytes(scalar);
    if has_width_1_encoding(scalar) {
        lemma_one_byte_scalar(scalar);
        if c == '\0' {
            assert(bytes[0] == 0u8);
        }
    }
}

/// A joined byte string holds a zero byte exactly when one of its parts
/// does.
proof fn lemma_nul_in_parts(front: Seq<u8>, back: Seq<u8>)
    ensures
        has_nul(front + back) <==> has_nul(front) || has_nul(back),
{
    let joined = front + back;
    if has_nul(front) {
        let i = choose|i: int| 0 <= i < front.len() && front[i] == 0u8;
        assert(joined[i] == 0u8);
    }
    if has_nul(back) {
        let i = choose|i: int| 0 <= i < back.len() && back[i] == 0u8;
        assert(joined[front.len() + i] == 0u8);
    }
    if has_nul(joined) {
        let i = choose|i: int| 0 <= i < joined.len() && joined[i] == 0u8;
        if i < front.len() {
            assert(front[i] == 0u8);
        } else {
            assert(back[i - front.len()] == 0u8);
        }
    }
}

/// The bytes of a text hold a zero byte exactly when the text holds the
/// null character: no other character has one in its encoding.
pub proof fn lemma_nul_byte_is_nul_char(text: Seq<char>)
    ensures
        has_nul(encode_utf8(text)) <==> has_nul_char(text),
    decreases text.len(),
{
    if text.len() > 0 {
        let rest = text.drop_first();
        lemma_nul_byte_is_nul_char(rest);
        lemma_nul_in_scalar(text[0]);
        lemma_nul_in_parts(encode_scalar(text[0] as u32), encode_utf8(rest));
        if has_nul_char(rest) {
            let i = choose|i: int| 0 <= i < rest.len() && rest[i] == '\0';
            assert(text[i + 1] == '\0');
        }
        if has_nul_char(text) {
            let i = choose|i: int| 0 <= i < text.len() && text[i] == '\0';
            if i > 0 {
                assert(rest[i - 1] == '\0');
            }
        }
    }
}

/// An argument list can be encoded exactly when it is not empty and none of
/// its texts holds the null character.
pub proof fn lemma_encodable_texts(args: Seq<String>)
    ensures
        encodable(argument_bytes(args)) <==> args.len() > 0 && forall|i: int|
            0 <= i < args.len() ==> !has_nul_char(#[trigger] args[i]@),
{
    let bytes = argument_bytes(args);
    assert forall|i: int| 0 <= i < args.len() implies (has_nul(#[trigger] bytes[i])
        <==> has_nul_char(args[i]@)) by {
        lemma_nul_byte_is_nul_char(args[i]@);
    }
    if args.len() > 0 && !encodable(bytes) {
        let i = choose|i: int| 0 <= i < bytes.len() && has_nul(#[trigger] bytes[i]);
        assert(has_nul_char(args[i]@));
    }
    if encodable(bytes) {
        assert forall|i: int| 0 <= i < args.len() implies !has_nul_char(#[trigger] args[i]@) by {
            assert(!has_nul(bytes[i]));
        }
    }
}

} // verus!
