use backend_prodigicrud::errors::AppError;
use backend_prodigicrud::json::JsonValue;
use backend_prodigicrud::product::handler::{
    delete_product, delete_product_statement, get_all_products, get_all_products_statement,
    get_single_product, get_single_product_statement, insert_product, insert_product_statement,
    update_product, update_product_statement,
};
use backend_prodigicrud::product::model::{Price, Product, ProductPayload};
use backend_prodigicrud::response::{Body, Response};
use backend_prodigicrud::statement::{Fetch, SqlParam, Statement};

fn price(value: f64) -> Price {
    Price { bits: value.to_bits() }
}

fn widget() -> ProductPayload {
    ProductPayload {
        name: "Widget".to_string(),
        qty: 10,
        price: price(9.99),
        description: None,
    }
}

fn document(product: &Product) -> JsonValue {
    JsonValue::Object(vec![
        ("id_product".to_string(), JsonValue::Integer(i64::from(product.id_product))),
        ("name".to_string(), JsonValue::Text(product.name.clone())),
        ("qty".to_string(), JsonValue::Integer(i64::from(product.qty))),
        ("price".to_string(), JsonValue::Double(product.price.bits)),
        (
            "description".to_string(),
            match &product.description {
                Some(text) => JsonValue::Text(text.clone()),
                None => JsonValue::Null,
            },
        ),
    ])
}

fn database_error(details: &str) -> AppError {
    AppError::InternalServerError(JsonValue::Object(vec![
        ("success".to_string(), JsonValue::Bool(false)),
        (
            "error".to_string(),
            JsonValue::Object(vec![
                ("code".to_string(), JsonValue::Integer(500)),
                ("message".to_string(), JsonValue::Text("Database Error.".to_string())),
                ("details".to_string(), JsonValue::Text(details.to_string())),
            ]),
        ),
    ]))
}

const POOL_CLOSED: &str = "attempted to acquire a connection on a closed pool";

#[test]
fn listing_statement_orders_by_name() {
    let expected = Statement {
        sql: "SELECT * FROM product ORDER BY name".to_string(),
        params: Vec::new(),
        fetch: Fetch::All,
    };
    assert_eq!(get_all_products_statement(), expected);
}

#[test]
fn insert_statement_binds_the_four_fields_in_column_order() {
    let expected = Statement {
        sql: "INSERT INTO product(name, qty, price, description) VALUES(?, ?, ?, ?);".to_string(),
        params: vec![
            SqlParam::Text("Widget".to_string()),
            SqlParam::Integer(10),
            SqlParam::Double(price(9.99)),
            SqlParam::NullableText(None),
        ],
        fetch: Fetch::Nothing,
    };
    assert_eq!(insert_product_statement(widget()), expected);
}

#[test]
fn insert_statement_keeps_a_description() {
    let payload = ProductPayload {
        name: "Gadget".to_string(),
        qty: -3,
        price: price(0.5),
        description: Some("small".to_string()),
    };
    let statement = insert_product_statement(payload);
    assert_eq!(
        statement.params,
        vec![
            SqlParam::Text("Gadget".to_string()),
            SqlParam::Integer(-3),
            SqlParam::Double(price(0.5)),
            SqlParam::NullableText(Some("small".to_string())),
        ]
    );
}

#[test]
fn select_statement_binds_the_identifier() {
    let expected = Statement {
        sql: "SELECT * FROM product WHERE id_product = ?".to_string(),
        params: vec![SqlParam::Unsigned(42)],
        fetch: Fetch::One,
    };
    assert_eq!(get_single_product_statement(42), expected);
}

#[test]
fn delete_statement_binds_the_identifier() {
    let expected = Statement {
        sql: "DELETE FROM product WHERE id_product = ?".to_string(),
        params: vec![SqlParam::Unsigned(u32::MAX)],
        fetch: Fetch::Nothing,
    };
    assert_eq!(delete_product_statement(u32::MAX), expected);
}

#[test]
fn update_statement_binds_the_fields_and_then_the_identifier() {
    let expected = Statement {
        sql: "UPDATE product SET name = ?, qty = ?, price = ?, description = ? WHERE id_product = ?"
            .to_string(),
        params: vec![
            SqlParam::Text("Widget".to_string()),
            SqlParam::Integer(10),
            SqlParam::Double(price(9.99)),
            SqlParam::NullableText(None),
            SqlParam::Unsigned(5),
        ],
        fetch: Fetch::Nothing,
    };
    assert_eq!(update_product_statement(5, widget()), expected);
}

#[test]
fn listing_answers_with_the_rows_in_the_order_given() {
    let rows = vec![
        Product { id_product: 2, name: "b".to_string(), qty: 1, price: price(1.0), description: None },
        Product {
            id_product: 1,
            name: "a".to_string(),
            qty: 2,
            price: price(2.0),
            description: Some("first".to_string()),
        },
    ];
    let expected = Response {
        status: 200,
        body: Body::Json(JsonValue::Array(vec![document(&rows[0]), document(&rows[1])])),
    };
    assert_eq!(get_all_products(Ok(rows)), Ok(expected));
}

#[test]
fn listing_of_an_empty_store_is_an_empty_array() {
    let expected = Response { status: 200, body: Body::Json(JsonValue::Array(Vec::new())) };
    assert_eq!(get_all_products(Ok(Vec::new())), Ok(expected));
}

#[test]
fn insertion_answers_created_without_a_body() {
    let expected = Response { status: 201, body: Body::Empty };
    assert_eq!(insert_product(Ok(1)), Ok(expected));
}

#[test]
fn read_answers_with_the_row() {
    let row = Product {
        id_product: 7,
        name: "Widget".to_string(),
        qty: 10,
        price: price(9.99),
        description: None,
    };
    let written = JsonValue::Object(vec![
        ("id_product".to_string(), JsonValue::Integer(7)),
        ("name".to_string(), JsonValue::Text("Widget".to_string())),
        ("qty".to_string(), JsonValue::Integer(10)),
        ("price".to_string(), JsonValue::Double(9.99f64.to_bits())),
        ("description".to_string(), JsonValue::Null),
    ]);
    let expected = Response { status: 200, body: Body::Json(written) };
    assert_eq!(get_single_product(Ok(row)), Ok(expected));
}

#[test]
fn read_of_an_absent_product_is_a_server_error() {
    let result = get_single_product(Err(sqlx::Error::RowNotFound));
    let error = result.unwrap_err();
    assert_eq!(
        error,
        database_error("no rows returned by a query that expected to return at least one row")
    );
    assert_eq!(error.error_response().status, 500);
}

#[test]
fn deletion_answers_no_content() {
    let expected = Response { status: 204, body: Body::Empty };
    assert_eq!(delete_product(Ok(1)), Ok(expected));
}

#[test]
fn deletion_of_an_absent_product_answers_no_content() {
    let expected = Response { status: 204, body: Body::Empty };
    assert_eq!(delete_product(Ok(0)), Ok(expected));
}

#[test]
fn update_answers_ok_without_a_body() {
    let expected = Response { status: 200, body: Body::Empty };
    assert_eq!(update_product(Ok(1)), Ok(expected));
}

#[test]
fn update_of_an_absent_product_answers_ok() {
    let expected = Response { status: 200, body: Body::Empty };
    assert_eq!(update_product(Ok(0)), Ok(expected));
}

#[test]
fn store_failure_on_any_operation_is_the_database_error() {
    let expected = database_error(POOL_CLOSED);
    assert_eq!(get_all_products(Err(sqlx::Error::PoolClosed)), Err(database_error(POOL_CLOSED)));
    assert_eq!(insert_product(Err(sqlx::Error::PoolClosed)), Err(database_error(POOL_CLOSED)));
    assert_eq!(get_single_product(Err(sqlx::Error::PoolClosed)), Err(database_error(POOL_CLOSED)));
    assert_eq!(delete_product(Err(sqlx::Error::PoolClosed)), Err(database_error(POOL_CLOSED)));
    assert_eq!(update_product(Err(sqlx::Error::PoolClosed)), Err(database_error(POOL_CLOSED)));
    let response = expected.error_response();
    assert_eq!(response.status, 500);
    let AppError::InternalServerError(document) = expected;
    assert_eq!(response.body, Body::Json(document));
}

#[test]
fn a_timeout_of_the_pool_is_the_database_error() {
    assert_eq!(
        update_product(Err(sqlx::Error::PoolTimedOut)),
        Err(database_error("pool timed out while waiting for an open connection"))
    );
}

#[test]
fn product_document_holds_the_five_fields_in_order() {
    let product = Product {
        id_product: -4,
        name: "Gadget".to_string(),
        qty: -1,
        price: price(0.25),
        description: Some("tiny".to_string()),
    };
    let expected = JsonValue::Object(vec![
        ("id_product".to_string(), JsonValue::Integer(-4)),
        ("name".to_string(), JsonValue::Text("Gadget".to_string())),
        ("qty".to_string(), JsonValue::Integer(-1)),
        ("price".to_string(), JsonValue::Double(0.25f64.to_bits())),
        ("description".to_string(), JsonValue::Text("tiny".to_string())),
    ]);
    assert_eq!(product.to_json(), expected);
}

#[test]
fn list_document_is_the_array_of_the_product_documents() {
    let rows = vec![
        Product { id_product: 1, name: "a".to_string(), qty: 1, price: price(1.0), description: None },
        Product { id_product: 2, name: "b".to_string(), qty: 2, price: price(2.0), description: None },
        Product { id_product: 3, name: "c".to_string(), qty: 3, price: price(3.0), description: None },
    ];
    let expected =
        JsonValue::Array(vec![document(&rows[0]), document(&rows[1]), document(&rows[2])]);
    assert_eq!(Product::list_to_json(&rows), expected);
    assert_eq!(Product::list_to_json(&Vec::new()), JsonValue::Array(Vec::new()));
}
