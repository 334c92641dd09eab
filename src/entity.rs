use vstd::prelude::*;

use crate::decimal::Float64;

verus! {

/// A member of the wire format that decoding reads, named by its key.
#[derive(Clone, Copy, Debug, PartialEq, Eq, Structural)]
pub enum Field {
    Instruments,
    Name,
    Type,
    DisplayName,
    PipLocation,
    DisplayPrecision,
    TradeUnitsPrecision,
    MinimumTradeSize,
    MaximumTrailingStopDistance,
    MinimumTrailingStopDistance,
    MaximumPositionSize,
    MaximumOrderUnits,
    MarginRate,
    GuaranteedStopLossOrderMode,
    Tags,
    Financing,
    LongRate,
    ShortRate,
    FinancingDaysOfWeek,
    DayOfWeek,
    DaysCharged,
}

impl Field {
    /// The member's key on the wire.
    pub open spec fn spec_key(self) -> Seq<char> {
        match self {
            Field::Instruments => "instruments"@,
            Field::Name => "name"@,
            Field::Type => "type"@,
            Field::DisplayName => "displayName"@,
            Field::PipLocation => "pipLocation"@,
            Field::DisplayPrecision => "displayPrecision"@,
            Field::TradeUnitsPrecision => "tradeUnitsPrecision"@,
            Field::MinimumTradeSize => "minimumTradeSize"@,
            Field::MaximumTrailingStopDistance => "maximumTrailingStopDistance"@,
            Field::MinimumTrailingStopDistance => "minimumTrailingStopDistance"@,
            Field::MaximumPositionSize => "maximumPositionSize"@,
            Field::MaximumOrderUnits => "maximumOrderUnits"@,
            Field::MarginRate => "marginRate"@,
            Field::GuaranteedStopLossOrderMode => "guaranteedStopLossOrderMode"@,
            Field::Tags => "tags"@,
            Field::Financing => "financing"@,
            Field::LongRate => "longRate"@,
            Field::ShortRate => "shortRate"@,
            Field::FinancingDaysOfWeek => "financingDaysOfWeek"@,
            Field::DayOfWeek => "dayOfWeek"@,
            Field::DaysCharged => "daysCharged"@,
        }
    }

    /// The member's key on the wire.
    pub fn key(self) -> (r: &'static str)
        ensures
            r@ == self.spec_key(),
    {
        match self {
            Field::Instruments => "instruments",
            Field::Name => "name",
            Field::Type => "type",
            Field::DisplayName => "displayName",
            Field::PipLocation => "pipLocation",
            Field::DisplayPrecision => "displayPrecision",
            Field::TradeUnitsPrecision => "tradeUnitsPrecision",
            Field::MinimumTradeSize => "minimumTradeSize",
            Field::MaximumTrailingStopDistance => "maximumTrailingStopDistance",
            Field::MinimumTrailingStopDistance => "minimumTrailingStopDistance",
            Field::MaximumPositionSize => "maximumPositionSize",
            Field::MaximumOrderUnits => "maximumOrderUnits",
            Field::MarginRate => "marginRate",
            Field::GuaranteedStopLossOrderMode => "guaranteedStopLossOrderMode",
            Field::Tags => "tags",
            Field::Financing => "financing",
            Field::LongRate => "longRate",
            Field::ShortRate => "shortRate",
            Field::FinancingDaysOfWeek => "financingDaysOfWeek",
            Field::DayOfWeek => "dayOfWeek",
            Field::DaysCharged => "daysCharged",
        }
    }
}

/// Why a response body did not decode into instruments.
#[derive(Clone, Debug, PartialEq, Eq)]
pub enum DecodeError {
    /// The body is not a JSON text.
    InvalidJson,
    /// A required member is absent.
    MissingField(Field),
    /// A member holds the wrong kind of JSON value.
    WrongType(Field),
    /// A decimal member holds a JSON number with no float value.
    InvalidNumber(Field),
    /// A decimal member holds a string that is not a decimal number.
    NotANumber(Field),
    /// An enumerated member holds a name outside its set.
    UnknownVariant(Field, String),
}

/// A `DecodeError` with its text as a sequence of characters.
pub enum DecodeErrorView {
    InvalidJson,
    MissingField(Field),
    WrongType(Field),
    InvalidNumber(Field),
    NotANumber(Field),
    UnknownVariant(Field, Seq<char>),
}

impl View for DecodeError {
    type V = DecodeErrorView;

    open spec fn view(&self) -> DecodeErrorView {
        match self {
            DecodeError::InvalidJson => DecodeErrorView::InvalidJson,
            DecodeError::MissingField(f) => DecodeErrorView::MissingField(*f),
            DecodeError::WrongType(f) => DecodeErrorView::WrongType(*f),
            DecodeError::InvalidNumber(f) => DecodeErrorView::InvalidNumber(*f),
            DecodeError::NotANumber(f) => DecodeErrorView::NotANumber(*f),
            DecodeError::UnknownVariant(f, s) => DecodeErrorView::UnknownVariant(*f, s@),
        }
    }
}

/// The class of an instrument.
#[derive(Clone, Copy, Debug, PartialEq, Eq, Structural)]
pub enum Type {
    Cfd,
    Currency,
    Metals,
}

/// Whether guaranteed stop-loss orders may, may not or must be used.
#[derive(Clone, Copy, Debug, PartialEq, Eq, Structural)]
pub enum GuaranteedStopLossOrderMode {
    Allowed,
    Disabled,
    Required,
}

/// A day of the week on which financing may be charged.
#[derive(Clone, Copy, Debug, PartialEq, Eq, Structural)]
pub enum DayOfWeek {
    Sunday,
    Monday,
    Tuesday,
    Wednesday,
    Thursday,
    Friday,
    Saturday,
}

/// A free-form label on an instrument.
#[derive(Clone, Debug, PartialEq, Eq)]
pub struct Tag {
    pub tag_type: String,
    pub name: String,
}

/// A `Tag` with its texts as sequences of characters.
pub struct TagView {
    pub tag_type: Seq<char>,
    pub name: Seq<char>,
}

impl View for Tag {
    type V = TagView;

    open spec fn view(&self) -> TagView {
        TagView { tag_type: self.tag_type@, name: self.name@ }
    }
}

/// How many days of financing are charged on one day of the week.
#[derive(Clone, Copy, Debug, PartialEq, Eq, Structural)]
pub struct FinancingDayOfWeek {
    pub day_of_week: DayOfWeek,
    pub days_charged: i64,
}

/// The overnight financing rates of an instrument.
#[derive(Clone, Debug, PartialEq, Eq)]
pub struct Financing {
    pub long_rate: Float64,
    pub short_rate: Float64,
    pub financing_days_of_week: Vec<FinancingDayOfWeek>,
}

/// A `Financing` with its days as a sequence.
pub struct FinancingView {
    pub long_rate: Float64,
    pub short_rate: Float64,
    pub financing_days_of_week: Seq<FinancingDayOfWeek>,
}

impl View for Financing {
    type V = FinancingView;

    open spec fn view(&self) -> FinancingView {
        FinancingView {
            long_rate: self.long_rate,
            short_rate: self.short_rate,
            financing_days_of_week: self.financing_days_of_week@,
        }
    }
}

/// A tradable symbol and its trading parameters.
#[derive(Clone, Debug, PartialEq, Eq)]
pub struct Instrument {
    pub name: String,
    pub instrument_type: Type,
    pub display_name: String,
    pub pip_location: i64,
    pub display_precision: i64,
    pub trade_units_precision: i64,
    pub minimum_trade_size: Float64,
    pub maximum_trailing_stop_distance: Float64,
    pub minimum_trailing_stop_distance: Float64,
    pub maximum_position_size: Float64,
    pub maximum_order_units: Float64,
    pub margin_rate: Float64,
    pub guaranteed_stop_loss_order_mode: GuaranteedStopLossOrderMode,
    pub tags: Vec<Tag>,
    pub financing: Financing,
}

/// An `Instrument` with its texts and lists as sequences.
pub struct InstrumentView {
    pub name: Seq<char>,
    pub instrument_type: Type,
    pub display_name: Seq<char>,
    pub pip_location: i64,
    pub display_precision: i64,
    pub trade_units_precision: i64,
    pub minimum_trade_size: Float64,
    pub maximum_trailing_stop_distance: Float64,
    pub minimum_trailing_stop_distance: Float64,
    pub maximum_position_size: Float64,
    pub maximum_order_units: Float64,
    pub margin_rate: Float64,
    pub guaranteed_stop_loss_order_mode: GuaranteedStopLossOrderMode,
    pub tags: Seq<TagView>,
    pub financing: FinancingView,
}

/// The views of a list of tags, in order.
pub open spec fn tags_view(tags: Seq<Tag>) -> Seq<TagView> {
    tags.map_values(|t: Tag| t@)
}

impl View for Instrument {
    type V = InstrumentView;

    open spec fn view(&self) -> InstrumentView {
        InstrumentView {
            name: self.name@,
            instrument_type: self.instrument_type,
            display_name: self.display_name@,
            pip_location: self.pip_location,
            display_precision: self.display_precision,
            trade_units_precision: self.trade_units_precision,
            minimum_trade_size: self.minimum_trade_size,
            maximum_trailing_stop_distance: self.maximum_trailing_stop_distance,
            minimum_trailing_stop_distance: self.minimum_trailing_stop_distance,
            maximum_position_size: self.maximum_position_size,
            maximum_order_units: self.maximum_order_units,
            margin_rate: self.margin_rate,
            guaranteed_stop_loss_order_mode: self.guaranteed_stop_loss_order_mode,
            tags: tags_view(self.tags@),
            financing: self.financing@,
        }
    }
}

/// The views of a list of instruments, in order.
pub open spec fn instruments_view(v: Seq<Instrument>) -> Seq<InstrumentView> {
    v.map_values(|i: Instrument| i@)
}

} // verus!
