//! A typed client for a brokerage's trading-instrument API: it decodes the
//! instruments of an account from the API's JSON answer, with decimal
//! quantities that may come as JSON numbers or as numeric strings.

pub mod client;
pub mod decimal;
pub mod decode;
pub mod entity;
pub mod json;

pub use client::{instruments_from_response, is_success_status, Client, Error, Url, CONTENT_TYPE_JSON};
pub use decimal::{de_decimal_number, Float64, NumberError};
pub use decode::{decode_instrument, decode_instruments, decode_instruments_body};
pub use entity::{
    DayOfWeek, DecodeError, Field, Financing, FinancingDayOfWeek, GuaranteedStopLossOrderMode,
    Instrument, Tag, Type,
};
pub use json::{parse_json, Json, JsonNumber};
