//! The routes of the product resource, below `/products`.

use crate::routes::{bytes_equal, Method, Route};
use vstd::prelude::*;
use vstd::slice::slice_subrange;
use vstd::string::*;

verus! {

/// The sign an identifier may begin with.
pub const PLUS: u8 = 43;

/// The digit zero.
pub const DIGIT_ZERO: u8 = 48;

/// The digit nine.
pub const DIGIT_NINE: u8 = 57;

/// True where `byte` is a decimal digit.
pub open spec fn is_digit(byte: u8) -> bool {
    DIGIT_ZERO <= byte <= DIGIT_NINE
}

/// The number that a run of decimal digits writes.
pub open spec fn decimal_value(digits: Seq<u8>) -> nat
    decreases digits.len(),
{
    if digits.len() == 0 {
        0
    } else {
        decimal_value(digits.drop_last()) * 10 + (digits.last() - DIGIT_ZERO) as nat
    }
}

/// The digits of an identifier: the segment without the plus sign it may
/// begin with.
pub open spec fn id_digits(segment: Seq<u8>) -> Seq<u8> {
    if segment.len() > 0 && segment[0] == PLUS {
        segment.skip(1)
    } else {
        segment
    }
}

/// The identifier that a segment writes: one or more decimal digits, after
/// a plus sign or without one, whose number fits in 32 bits. Any other
/// segment writes none.
pub open spec fn parse_id_spec(segment: Seq<u8>) -> Option<u32> {
    let digits = id_digits(segment);
    if digits.len() > 0 && (forall|k: int| 0 <= k < digits.len() ==> is_digit(#[trigger] digits[k]))
        && decimal_value(digits) <= u32::MAX {
        Some(decimal_value(digits) as u32)
    } else {
        None
    }
}

/// A run of digits writes a number no smaller than any of its beginnings.
proof fn lemma_decimal_value_grows(digits: Seq<u8>, n: int)
    requires
        0 <= n <= digits.len(),
    ensures
        decimal_value(digits.take(n)) <= decimal_value(digits),
    decreases digits.len(),
{
    if n == digits.len() {
        assert(digits.take(n) =~= digits);
    } else {
        lemma_decimal_value_grows(digits.drop_last(), n);
        assert(digits.drop_last().take(n) =~= digits.take(n));
    }
}

/// Reads an identifier from a segment.
pub fn parse_id(segment: &[u8]) -> (res: Option<u32>)
    ensures
        res == parse_id_spec(segment@),
{
    let start: usize = if segment.len() > 0 && segment[0] == PLUS {
        1
    } else {
        0
    };
    let digits = slice_subrange(segment, start, segment.len());
    if digits.len() == 0 {
        return None;
    }
    let mut value: u64 = 0;
    let mut i: usize = 0;
    while i < digits.len()
        invariant
            digits@ == id_digits(segment@),
            i <= digits@.len(),
            forall|k: int| 0 <= k < i ==> is_digit(#[trigger] digits@[k]),
            value == decimal_value(digits@.take(i as int)),
            value <= u32::MAX,
        decreases digits.len() - i,
    {
        let byte = digits[i];
        if byte < DIGIT_ZERO || byte > DIGIT_NINE {
            return None;
        }
        assert(digits@.take(i + 1).drop_last() =~= digits@.take(i as int));
        value = value * 10 + (byte - DIGIT_ZERO) as u64;
        if value > 0xffff_ffff {
            proof {
                lemma_decimal_value_grows(digits@, i + 1);
            }
            return None;
        }
        i += 1;
    }
    assert(digits@.take(i as int) =~= digits@);
    Some(value as u32)
}

/// The segment under which the products lie.
pub open spec fn products_segment() -> Seq<u8> {
    "products".spec_bytes()
}

/// The route table of the products, over the segments that follow the
/// prefix: the collection takes GET and POST, one product under its
/// identifier takes GET, DELETE and PUT, and nothing else is a route.
pub open spec fn scoped_product_spec(method: Method, path: Seq<Seq<u8>>) -> Option<Route> {
    if path.len() == 0 || path[0] != products_segment() {
        None
    } else if path.len() == 1 {
        match method {
            Method::Get => Some(Route::GetAllProducts),
            Method::Post => Some(Route::InsertProduct),
            _ => None,
        }
    } else if path.len() == 2 {
        match parse_id_spec(path[1]) {
            Some(id_product) => match method {
                Method::Get => Some(Route::GetSingleProduct(id_product)),
                Method::Delete => Some(Route::DeleteProduct(id_product)),
                Method::Put => Some(Route::UpdateProduct(id_product)),
                _ => None,
            },
            None => None,
        }
    } else {
        None
    }
}

/// Finds the route of a request among those of the products. `path` holds
/// the segments that follow the prefix.
pub fn scoped_product(method: Method, path: &Vec<&[u8]>) -> (res: Option<Route>)
    ensures
        res == scoped_product_spec(method, crate::routes::slices_view(path@)),
{
    if path.len() == 0 || !bytes_equal(path[0], "products".as_bytes()) {
        return None;
    }
    if path.len() == 1 {
        match method {
            Method::Get => Some(Route::GetAllProducts),
            Method::Post => Some(Route::InsertProduct),
            _ => None,
        }
    } else if path.len() == 2 {
        match parse_id(path[1]) {
            Some(id_product) => match method {
                Method::Get => Some(Route::GetSingleProduct(id_product)),
                Method::Delete => Some(Route::DeleteProduct(id_product)),
                Method::Put => Some(Route::UpdateProduct(id_product)),
                _ => None,
            },
            None => None,
        }
    } else {
        None
    }
}

} // verus!
