//! The five operations on products. Each one sends the store exactly one
//! statement and answers from what the store gave back: a function builds
//! the statement, and a second one turns the outcome into the response.

use crate::errors::AppError;
use crate::product::model::{product_document, products_document, Product, ProductPayload};
use crate::response::{Body, Response, STATUS_CREATED, STATUS_NO_CONTENT, STATUS_OK};
use crate::statement::{Fetch, SqlParam, Statement};
use vstd::prelude::*;

verus! {

/// The statement that lists every product, ordered by name.
pub fn get_all_products_statement() -> (statement: Statement)
    ensures
        statement.sql@ == "SELECT * FROM product ORDER BY name"@,
        statement.params@ == Seq::<SqlParam>::empty(),
        statement.fetch == Fetch::All,
{
    Statement {
        sql: "SELECT * FROM product ORDER BY name".to_owned(),
        params: Vec::new(),
        fetch: Fetch::All,
    }
}

/// Answers a listing: status 200 and the array of the rows' documents, in
/// the order in which the store gave the rows, the empty array where it gave
/// none; a failure of the store as the database error.
pub fn get_all_products(outcome: Result<Vec<Product>, sqlx::Error>) -> (res: Result<
    Response,
    AppError,
>)
    ensures
        match outcome {
            Ok(rows) => res is Ok && res->Ok_0.is_json_with(200, products_document(rows@)),
            Err(error) => res is Err && res->Err_0.reports(error),
        },
{
    match outcome {
        Ok(rows) => Ok(
            Response { status: STATUS_OK, body: Body::Json(Product::list_to_json(&rows)) },
        ),
        Err(error) => Err(AppError::from(error)),
    }
}

/// The statement that makes a row from `payload`. The store gives the row
/// its identifier; the four fields are bound as they came.
pub fn insert_product_statement(payload: ProductPayload) -> (statement: Statement)
    ensures
        statement.sql@
            == "INSERT INTO product(name, qty, price, description) VALUES(?, ?, ?, ?);"@,
        statement.params@ == seq![
            SqlParam::Text(payload.name),
            SqlParam::Integer(payload.qty),
            SqlParam::Double(payload.price),
            SqlParam::NullableText(payload.description),
        ],
        statement.fetch == Fetch::Nothing,
{
    let mut params: Vec<SqlParam> = Vec::new();
    params.push(SqlParam::Text(payload.name));
    params.push(SqlParam::Integer(payload.qty));
    params.push(SqlParam::Double(payload.price));
    params.push(SqlParam::NullableText(payload.description));
    Statement {
        sql: "INSERT INTO product(name, qty, price, description) VALUES(?, ?, ?, ?);".to_owned(),
        params,
        fetch: Fetch::Nothing,
    }
}

/// Answers an insertion, given the number of rows the store says it
/// changed: status 201 and no body, the new identifier is not told; a
/// failure of the store as the database error.
pub fn insert_product(outcome: Result<u64, sqlx::Error>) -> (res: Result<Response, AppError>)
    ensures
        match outcome {
            Ok(_) => res == Ok::<Response, AppError>((Response { status: 201, body: Body::Empty })),
            Err(error) => res is Err && res->Err_0.reports(error),
        },
{
    match outcome {
        Ok(_) => Ok(Response { status: STATUS_CREATED, body: Body::Empty }),
        Err(error) => Err(AppError::from(error)),
    }
}

/// The statement that reads the product `id_product`.
pub fn get_single_product_statement(id_product: u32) -> (statement: Statement)
    ensures
        statement.sql@ == "SELECT * FROM product WHERE id_product = ?"@,
        statement.params@ == seq![SqlParam::Unsigned(id_product)],
        statement.fetch == Fetch::One,
{
    let mut params: Vec<SqlParam> = Vec::new();
    params.push(SqlParam::Unsigned(id_product));
    Statement {
        sql: "SELECT * FROM product WHERE id_product = ?".to_owned(),
        params,
        fetch: Fetch::One,
    }
}

/// Answers a read of one product: status 200 and the row's document; a
/// failure of the store, that no row has the identifier among them, as the
/// database error.
pub fn get_single_product(outcome: Result<Product, sqlx::Error>) -> (res: Result<
    Response,
    AppError,
>)
    ensures
        match outcome {
            Ok(row) => res is Ok && res->Ok_0.is_json_with(200, product_document(row)),
            Err(error) => res is Err && res->Err_0.reports(error),
        },
{
    match outcome {
        Ok(row) => Ok(Response { status: STATUS_OK, body: Body::Json(row.to_json()) }),
        Err(error) => Err(AppError::from(error)),
    }
}

/// The statement that deletes the product `id_product`.
pub fn delete_product_statement(id_product: u32) -> (statement: Statement)
    ensures
        statement.sql@ == "DELETE FROM product WHERE id_product = ?"@,
        statement.params@ == seq![SqlParam::Unsigned(id_product)],
        statement.fetch == Fetch::Nothing,
{
    let mut params: Vec<SqlParam> = Vec::new();
    params.push(SqlParam::Unsigned(id_product));
    Statement {
        sql: "DELETE FROM product WHERE id_product = ?".to_owned(),
        params,
        fetch: Fetch::Nothing,
    }
}

/// Answers a deletion, given the number of rows the store says it deleted:
/// status 204 and no body, also where that number is zero; a failure of the
/// store as the database error.
pub fn delete_product(outcome: Result<u64, sqlx::Error>) -> (res: Result<Response, AppError>)
    ensures
        match outcome {
            Ok(_) => res == Ok::<Response, AppError>((Response { status: 204, body: Body::Empty })),
            Err(error) => res is Err && res->Err_0.reports(error),
        },
{
    match outcome {
        Ok(_) => Ok(Response { status: STATUS_NO_CONTENT, body: Body::Empty }),
        Err(error) => Err(AppError::from(error)),
    }
}

/// The statement that overwrites the four fields of the product
/// `id_product` with those of `payload`. The identifier is bound last and
/// is not among the columns that are set.
pub fn update_product_statement(id_product: u32, payload: ProductPayload) -> (statement: Statement)
    ensures
        statement.sql@
            == "UPDATE product SET name = ?, qty = ?, price = ?, description = ? WHERE id_product = ?"@,
        statement.params@ == seq![
            SqlParam::Text(payload.name),
            SqlParam::Integer(payload.qty),
            SqlParam::Double(payload.price),
            SqlParam::NullableText(payload.description),
            SqlParam::Unsigned(id_product),
        ],
        statement.fetch == Fetch::Nothing,
{
    let mut params: Vec<SqlParam> = Vec::new();
    params.push(SqlParam::Text(payload.name));
    params.push(SqlParam::Integer(payload.qty));
    params.push(SqlParam::Double(payload.price));
    params.push(SqlParam::NullableText(payload.description));
    params.push(SqlParam::Unsigned(id_product));
    Statement {
        sql: "UPDATE product SET name = ?, qty = ?, price = ?, description = ? WHERE id_product = ?".to_owned(),
        params,
        fetch: Fetch::Nothing,
    }
}

/// Answers an update, given the number of rows the store says it changed:
/// status 200 and no body, also where that number is zero; a failure of the
/// store as the database error.
pub fn update_product(outcome: Result<u64, sqlx::Error>) -> (res: Result<Response, AppError>)
    ensures
        match outcome {
            Ok(_) => res == Ok::<Response, AppError>((Response { status: 200, body: Body::Empty })),
            Err(error) => res is Err && res->Err_0.reports(error),
        },
{
    match outcome {
        Ok(_) => Ok(Response { status: STATUS_OK, body: Body::Empty }),
        Err(error) => Err(AppError::from(error)),
    }
}

} // verus!
