//! The product as the store holds it, the part of it a client sends, and
//! the JSON document a product is sent as.

use crate::json::{items_view, members_view, JsonValue, JsonView};
use vstd::prelude::*;

verus! {

/// A price, held as the bit pattern of its IEEE 754 double-precision value.
///
/// The crate never computes with a price: it carries one from a request to
/// the store and from the store to a response, bit for bit.
#[derive(Debug, Clone, Copy, PartialEq, Eq, Structural)]
pub struct Price {
    pub bits: u64,
}

/// A product as the store holds it. `id_product` is given by the store when
/// the row is made and never changes afterwards.
#[derive(Debug, Clone, PartialEq, Eq)]
pub struct Product {
    pub id_product: i32,
    pub name: String,
    pub qty: i32,
    pub price: Price,
    pub description: Option<String>,
}

/// What a client sends to make a product or to overwrite one: every field of
/// a [`Product`] but its identifier.
#[derive(Debug, Clone, PartialEq, Eq)]
pub struct ProductPayload {
    pub name: String,
    pub qty: i32,
    pub price: Price,
    pub description: Option<String>,
}

/// The document of a product: an object of its five fields under their own
/// names and in their order; a product without a description has `null`
/// there.
pub open spec fn product_document(product: Product) -> JsonView {
    JsonView::Object(
        seq![
            ("id_product"@, JsonView::Integer(product.id_product as int)),
            ("name"@, JsonView::Text(product.name@)),
            ("qty"@, JsonView::Integer(product.qty as int)),
            ("price"@, JsonView::Double(product.price.bits)),
            (
                "description"@,
                match product.description {
                    Some(text) => JsonView::Text(text@),
                    None => JsonView::Null,
                },
            ),
        ],
    )
}

/// The document of a list of products: the array of their documents, in the
/// order of the list.
pub open spec fn products_document(products: Seq<Product>) -> JsonView {
    JsonView::Array(Seq::new(products.len(), |i: int| product_document(products[i])))
}

impl Product {
    /// Writes the product as its document.
    pub fn to_json(&self) -> (res: JsonValue)
        ensures
            res@ == product_document(*self),
    {
        let description = match &self.description {
            Some(text) => JsonValue::Text(text.clone()),
            None => JsonValue::Null,
        };
        let mut members: Vec<(String, JsonValue)> = Vec::new();
        members.push(("id_product".to_owned(), JsonValue::Integer(self.id_product as i64)));
        members.push(("name".to_owned(), JsonValue::Text(self.name.clone())));
        members.push(("qty".to_owned(), JsonValue::Integer(self.qty as i64)));
        members.push(("price".to_owned(), JsonValue::Double(self.price.bits)));
        members.push(("description".to_owned(), description));
        assert(members_view(members@) =~= product_document(*self)->Object_0);
        JsonValue::object(members)
    }

    /// Writes a list of products as its document.
    pub fn list_to_json(products: &Vec<Product>) -> (res: JsonValue)
        ensures
            res@ == products_document(products@),
    {
        let mut items: Vec<JsonValue> = Vec::new();
        let mut i: usize = 0;
        while i < products.len()
            invariant
                i <= products.len(),
                items.len() == i,
                forall|k: int| 0 <= k < i ==> (#[trigger] items@[k])@ == product_document(products@[k]),
            decreases products.len() - i,
        {
            let item = products[i].to_json();
            items.push(item);
            i += 1;
        }
        assert(items_view(items@) =~= products_document(products@)->Array_0);
        JsonValue::array(items)
    }
}

} // verus!
