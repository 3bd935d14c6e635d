//! Assembly of the JSON request body sent to the processing server.

use vstd::prelude::*;
use vstd::utf8::valid_utf8;
use crate::errors::ChefError;
use crate::escape::{escape_seq, json_escape};
use crate::store::Recipe;
use crate::text::{trim_newline, trim_spec};

verus! {

/// The opening of the request object up to the input string: `{"input":"`.
pub open spec fn input_label() -> Seq<u8> {
    seq![123u8, 34u8, 105u8, 110u8, 112u8, 117u8, 116u8, 34u8, 58u8, 34u8]
}

/// The text between the input string and the spliced pipeline: `","recipe":`.
pub open spec fn recipe_label() -> Seq<u8> {
    seq![34u8, 44u8, 34u8, 114u8, 101u8, 99u8, 105u8, 112u8, 101u8, 34u8, 58u8]
}

/// The text between the pipeline and the output type: `,"outputType":"`.
pub open spec fn output_label() -> Seq<u8> {
    seq![
        44u8,
        34u8,
        111u8,
        117u8,
        116u8,
        112u8,
        117u8,
        116u8,
        84u8,
        121u8,
        112u8,
        101u8,
        34u8,
        58u8,
        34u8,
    ]
}

/// The closing of the request object: `"}`.
pub open spec fn closing_label() -> Seq<u8> {
    seq![34u8, 125u8]
}

/// The exact request body for given input bytes and recipe fields: the input
/// is trimmed of one trailing line terminator and escaped for a JSON string,
/// the pipeline is spliced in verbatim as raw JSON, and the output type
/// stands as a JSON string.
pub open spec fn request_body(input: Seq<u8>, pipeline: Seq<u8>, output_type: Seq<u8>) -> Seq<
    u8,
> {
    input_label() + escape_seq(trim_spec(input)) + recipe_label() + pipeline + output_label()
        + output_type + closing_label()
}

/// Relies on str::from_utf8: it accepts exactly the byte sequences that are
/// valid UTF-8 text.
#[verifier::external_body]
fn utf8_check(b: &Vec<u8>) -> (r: bool)
    ensures
        r == valid_utf8(b@),
{
    core::str::from_utf8(b.as_slice()).is_ok()
}

/// Appends the bytes of `{"input":"`.
fn push_input_label(out: &mut Vec<u8>)
    ensures
        final(out)@ == old(out)@ + input_label(),
{
    out.push(123);
    out.push(34);
    out.push(105);
    out.push(110);
    out.push(112);
    out.push(117);
    out.push(116);
    out.push(34);
    out.push(58);
    out.push(34);
    proof {
        assert(out@ =~= old(out)@ + input_label());
    }
}

/// Appends the bytes of `","recipe":`.
fn push_recipe_label(out: &mut Vec<u8>)
    ensures
        final(out)@ == old(out)@ + recipe_label(),
{
    out.push(34);
    out.push(44);
    out.push(34);
    out.push(114);
    out.push(101);
    out.push(99);
    out.push(105);
    out.push(112);
    out.push(101);
    out.push(34);
    out.push(58);
    proof {
        assert(out@ =~= old(out)@ + recipe_label());
    }
}

/// Appends the bytes of `,"outputType":"`.
fn push_output_label(out: &mut Vec<u8>)
    ensures
        final(out)@ == old(out)@ + output_label(),
{
    out.push(44);
    out.push(34);
    out.push(111);
    out.push(117);
    out.push(116);
    out.push(112);
    out.push(117);
    out.push(116);
    out.push(84);
    out.push(121);
    out.push(112);
    out.push(101);
    out.push(34);
    out.push(58);
    out.push(34);
    proof {
        assert(out@ =~= old(out)@ + output_label());
    }
}

/// Appends every byte of `extra` to `out`.
fn push_all(out: &mut Vec<u8>, extra: &Vec<u8>)
    ensures
        final(out)@ == old(out)@ + extra@,
{
    let mut i: usize = 0;
    while i < extra.len()
        invariant
            i <= extra.len(),
            out@ == old(out)@ + extra@.take(i as int),
        decreases extra.len() - i,
    {
        out.push(extra[i]);
        proof {
            assert(old(out)@ + extra@.take(i as int) + seq![extra@[i as int]] =~= old(out)@
                + extra@.take(i + 1));
        }
        i = i + 1;
    }
    proof {
        assert(old(out)@ + extra@.take(extra@.len() as int) =~= old(out)@ + extra@);
    }
}

/// Builds the request body from raw input bytes and a stored recipe: the
/// input is trimmed of one trailing line terminator, escaped, and embedded
/// together with the recipe's pipeline and output type. Input that is not
/// valid UTF-8 text is rejected instead.
pub fn build_request(input: Vec<u8>, recipe: &Recipe) -> (r: Result<Vec<u8>, ChefError>)
    ensures
        valid_utf8(input@) ==> (r matches Ok(body) && body@ == request_body(
            input@,
            recipe.pipeline@,
            recipe.output_type@,
        )),
        !valid_utf8(input@) ==> (r matches Err(e) && e == ChefError::InvalidInput),
{
    if !utf8_check(&input) {
        return Err(ChefError::InvalidInput);
    }
    let mut trimmed = input;
    trim_newline(&mut trimmed);
    let escaped = json_escape(&trimmed);
    let mut out: Vec<u8> = Vec::new();
    push_input_label(&mut out);
    push_all(&mut out, &escaped);
    push_recipe_label(&mut out);
    push_all(&mut out, &recipe.pipeline);
    push_output_label(&mut out);
    push_all(&mut out, &recipe.output_type);
    out.push(34);
    out.push(125);
    proof {
        assert(out@ =~= request_body(input@, recipe.pipeline@, recipe.output_type@));
    }
    Ok(out)
}

} // verus!
