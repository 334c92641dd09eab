use vstd::prelude::*;

use crate::decimal::{decimal_of, de_decimal_number, Float64, NumberError};
use crate::entity::{
    instruments_view, tags_view, DayOfWeek, DecodeError, DecodeErrorView, Field, Financing,
    FinancingDayOfWeek, FinancingView, GuaranteedStopLossOrderMode, Instrument, InstrumentView,
    Tag, TagView, Type,
};
use crate::json::{get_member, json_of_text, member, parse_json, text_is, Json};

verus! {

/// Decodes the items of an array in order with `f`; the first item that
/// fails decides the error.
pub open spec fn all_decoded<T>(
    items: Seq<Json>,
    f: spec_fn(Json) -> Result<T, DecodeErrorView>,
) -> Result<Seq<T>, DecodeErrorView>
    decreases items.len(),
{
    if items.len() == 0 {
        Ok(Seq::empty())
    } else {
        match all_decoded(items.drop_last(), f) {
            Err(e) => Err(e),
            Ok(done) => match f(items.last()) {
                Err(e) => Err(e),
                Ok(x) => Ok(done.push(x)),
            },
        }
    }
}

/// Once a prefix of the items fails, the whole array fails the same way.
pub proof fn lemma_failed_prefix<T>(
    items: Seq<Json>,
    f: spec_fn(Json) -> Result<T, DecodeErrorView>,
    k: int,
)
    requires
        0 <= k <= items.len(),
        all_decoded(items.take(k), f) is Err,
    ensures
        all_decoded(items, f) == all_decoded(items.take(k), f),
    decreases items.len(),
{
    if items.len() > k {
        assert(items.drop_last().take(k) =~= items.take(k));
        lemma_failed_prefix(items.drop_last(), f, k);
    } else {
        assert(items.take(k) =~= items);
    }
}

/// An array decodes exactly when each of its items does, and then into one
/// value per item, in the same order.
pub proof fn lemma_all_decoded<T>(items: Seq<Json>, f: spec_fn(Json) -> Result<T, DecodeErrorView>)
    ensures
        (all_decoded(items, f) is Ok) <==> (forall|i: int|
            0 <= i < items.len() ==> #[trigger] f(items[i]) is Ok),
        all_decoded(items, f) is Ok ==> {
            let out = all_decoded(items, f)->Ok_0;
            &&& out.len() == items.len()
            &&& forall|i: int| 0 <= i < items.len() ==> #[trigger] f(items[i]) == Ok::<
                T,
                DecodeErrorView,
            >(out[i])
        },
    decreases items.len(),
{
    if items.len() > 0 {
        let init = items.drop_last();
        lemma_all_decoded(init, f);
        assert forall|i: int| 0 <= i < init.len() implies init[i] == items[i] by {}
        if all_decoded(items, f) is Ok {
            let out = all_decoded(items, f)->Ok_0;
            let done = all_decoded(init, f)->Ok_0;
            assert forall|i: int| 0 <= i < items.len() implies #[trigger] f(items[i]) == Ok::<
                T,
                DecodeErrorView,
            >(out[i]) by {
                if i < init.len() {
                    assert(f(init[i]) == Ok::<T, DecodeErrorView>(done[i]));
                }
            }
        } else if all_decoded(init, f) is Err {
            let j = choose|j: int| 0 <= j < init.len() && !(#[trigger] f(init[j]) is Ok);
            assert(!(f(items[j]) is Ok));
        } else {
            assert(!(f(items[items.len() - 1]) is Ok));
        }
    }
}

/// A text member.
pub open spec fn text_field(m: Seq<(String, Json)>, f: Field) -> Result<Seq<char>, DecodeErrorView> {
    match member(m, f.spec_key()) {
        None => Err(DecodeErrorView::MissingField(f)),
        Some(Json::Str(s)) => Ok(s@),
        Some(_) => Err(DecodeErrorView::WrongType(f)),
    }
}

/// An integer member: a JSON number with a signed 64-bit integer value.
pub open spec fn int_field(m: Seq<(String, Json)>, f: Field) -> Result<i64, DecodeErrorView> {
    match member(m, f.spec_key()) {
        None => Err(DecodeErrorView::MissingField(f)),
        Some(Json::Number(n)) => match n.int {
            Some(i) => Ok(i),
            None => Err(DecodeErrorView::WrongType(f)),
        },
        Some(_) => Err(DecodeErrorView::WrongType(f)),
    }
}

/// A decimal member, read by the lenient rule.
pub open spec fn decimal_field(m: Seq<(String, Json)>, f: Field) -> Result<Float64, DecodeErrorView> {
    match member(m, f.spec_key()) {
        None => Err(DecodeErrorView::MissingField(f)),
        Some(v) => match decimal_of(v) {
            Ok(x) => Ok(x),
            Err(NumberError::InvalidNumber) => Err(DecodeErrorView::InvalidNumber(f)),
            Err(NumberError::NotANumber) => Err(DecodeErrorView::NotANumber(f)),
            Err(NumberError::WrongType) => Err(DecodeErrorView::WrongType(f)),
        },
    }
}

fn text_field_exec(m: &Vec<(String, Json)>, f: Field) -> (r: Result<String, DecodeError>)
    ensures
        match r {
            Ok(s) => text_field(m@, f) == Ok::<Seq<char>, DecodeErrorView>(s@),
            Err(e) => text_field(m@, f) == Err::<Seq<char>, DecodeErrorView>(e@),
        },
{
    match get_member(m, f.key()) {
        None => Err(DecodeError::MissingField(f)),
        Some(Json::Str(s)) => Ok(s.clone()),
        Some(_) => Err(DecodeError::WrongType(f)),
    }
}

fn int_field_exec(m: &Vec<(String, Json)>, f: Field) -> (r: Result<i64, DecodeError>)
    ensures
        match r {
            Ok(i) => int_field(m@, f) == Ok::<i64, DecodeErrorView>(i),
            Err(e) => int_field(m@, f) == Err::<i64, DecodeErrorView>(e@),
        },
{
    match get_member(m, f.key()) {
        None => Err(DecodeError::MissingField(f)),
        Some(Json::Number(n)) => match n.int {
            Some(i) => Ok(i),
            None => Err(DecodeError::WrongType(f)),
        },
        Some(_) => Err(DecodeError::WrongType(f)),
    }
}

fn decimal_field_exec(m: &Vec<(String, Json)>, f: Field) -> (r: Result<Float64, DecodeError>)
    ensures
        match r {
            Ok(x) => decimal_field(m@, f) == Ok::<Float64, DecodeErrorView>(x),
            Err(e) => decimal_field(m@, f) == Err::<Float64, DecodeErrorView>(e@),
        },
{
    match get_member(m, f.key()) {
        None => Err(DecodeError::MissingField(f)),
        Some(v) => match de_decimal_number(v) {
            Ok(x) => Ok(x),
            Err(NumberError::InvalidNumber) => Err(DecodeError::InvalidNumber(f)),
            Err(NumberError::NotANumber) => Err(DecodeError::NotANumber(f)),
            Err(NumberError::WrongType) => Err(DecodeError::WrongType(f)),
        },
    }
}

/// The instrument class that a wire name stands for.
pub open spec fn type_named(s: Seq<char>) -> Option<Type> {
    if s == "CFD"@ {
        Some(Type::Cfd)
    } else if s == "CURRENCY"@ {
        Some(Type::Currency)
    } else if s == "METALS"@ {
        Some(Type::Metals)
    } else {
        None
    }
}

/// The guaranteed stop-loss mode that a wire name stands for.
pub open spec fn mode_named(s: Seq<char>) -> Option<GuaranteedStopLossOrderMode> {
    if s == "ALLOWED"@ {
        Some(GuaranteedStopLossOrderMode::Allowed)
    } else if s == "DISABLED"@ {
        Some(GuaranteedStopLossOrderMode::Disabled)
    } else if s == "REQUIRED"@ {
        Some(GuaranteedStopLossOrderMode::Required)
    } else {
        None
    }
}

/// The day that a wire name stands for.
pub open spec fn day_named(s: Seq<char>) -> Option<DayOfWeek> {
    if s == "SUNDAY"@ {
        Some(DayOfWeek::Sunday)
    } else if s == "MONDAY"@ {
        Some(DayOfWeek::Monday)
    } else if s == "TUESDAY"@ {
        Some(DayOfWeek::Tuesday)
    } else if s == "WEDNESDAY"@ {
        Some(DayOfWeek::Wednesday)
    } else if s == "THURSDAY"@ {
        Some(DayOfWeek::Thursday)
    } else if s == "FRIDAY"@ {
        Some(DayOfWeek::Friday)
    } else if s == "SATURDAY"@ {
        Some(DayOfWeek::Saturday)
    } else {
        None
    }
}

pub fn type_from_name(s: &String) -> (r: Option<Type>)
    ensures
        r == type_named(s@),
{
    if text_is(s, "CFD") {
        Some(Type::Cfd)
    } else if text_is(s, "CURRENCY") {
        Some(Type::Currency)
    } else if text_is(s, "METALS") {
        Some(Type::Metals)
    } else {
        None
    }
}

pub fn mode_from_name(s: &String) -> (r: Option<GuaranteedStopLossOrderMode>)
    ensures
        r == mode_named(s@),
{
    if text_is(s, "ALLOWED") {
        Some(GuaranteedStopLossOrderMode::Allowed)
    } else if text_is(s, "DISABLED") {
        Some(GuaranteedStopLossOrderMode::Disabled)
    } else if text_is(s, "REQUIRED") {
        Some(GuaranteedStopLossOrderMode::Required)
    } else {
        None
    }
}

pub fn day_from_name(s: &String) -> (r: Option<DayOfWeek>)
    ensures
        r == day_named(s@),
{
    if text_is(s, "SUNDAY") {
        Some(DayOfWeek::Sunday)
    } else if text_is(s, "MONDAY") {
        Some(DayOfWeek::Monday)
    } else if text_is(s, "TUESDAY") {
        Some(DayOfWeek::Tuesday)
    } else if text_is(s, "WEDNESDAY") {
        Some(DayOfWeek::Wednesday)
    } else if text_is(s, "THURSDAY") {
        Some(DayOfWeek::Thursday)
    } else if text_is(s, "FRIDAY") {
        Some(DayOfWeek::Friday)
    } else if text_is(s, "SATURDAY") {
        Some(DayOfWeek::Saturday)
    } else {
        None
    }
}

/// The instrument class member.
pub open spec fn type_field(m: Seq<(String, Json)>) -> Result<Type, DecodeErrorView> {
    match text_field(m, Field::Type) {
        Err(e) => Err(e),
        Ok(s) => match type_named(s) {
            Some(t) => Ok(t),
            None => Err(DecodeErrorView::UnknownVariant(Field::Type, s)),
        },
    }
}

/// The guaranteed stop-loss mode member.
pub open spec fn mode_field(m: Seq<(String, Json)>) -> Result<GuaranteedStopLossOrderMode, DecodeErrorView> {
    match text_field(m, Field::GuaranteedStopLossOrderMode) {
        Err(e) => Err(e),
        Ok(s) => match mode_named(s) {
            Some(t) => Ok(t),
            None => Err(DecodeErrorView::UnknownVariant(Field::GuaranteedStopLossOrderMode, s)),
        },
    }
}

/// The day-of-week member.
pub open spec fn day_field(m: Seq<(String, Json)>) -> Result<DayOfWeek, DecodeErrorView> {
    match text_field(m, Field::DayOfWeek) {
        Err(e) => Err(e),
        Ok(s) => match day_named(s) {
            Some(t) => Ok(t),
            None => Err(DecodeErrorView::UnknownVariant(Field::DayOfWeek, s)),
        },
    }
}

fn type_field_exec(m: &Vec<(String, Json)>) -> (r: Result<Type, DecodeError>)
    ensures
        match r {
            Ok(x) => type_field(m@) == Ok::<Type, DecodeErrorView>(x),
            Err(e) => type_field(m@) == Err::<Type, DecodeErrorView>(e@),
        },
{
    let s = match text_field_exec(m, Field::Type) {
        Ok(s) => s,
        Err(e) => return Err(e),
    };
    match type_from_name(&s) {
        Some(t) => Ok(t),
        None => Err(DecodeError::UnknownVariant(Field::Type, s)),
    }
}

fn mode_field_exec(m: &Vec<(String, Json)>) -> (r: Result<GuaranteedStopLossOrderMode, DecodeError>)
    ensures
        match r {
            Ok(x) => mode_field(m@) == Ok::<GuaranteedStopLossOrderMode, DecodeErrorView>(x),
            Err(e) => mode_field(m@) == Err::<GuaranteedStopLossOrderMode, DecodeErrorView>(e@),
        },
{
    let s = match text_field_exec(m, Field::GuaranteedStopLossOrderMode) {
        Ok(s) => s,
        Err(e) => return Err(e),
    };
    match mode_from_name(&s) {
        Some(t) => Ok(t),
        None => Err(DecodeError::UnknownVariant(Field::GuaranteedStopLossOrderMode, s)),
    }
}

fn day_field_exec(m: &Vec<(String, Json)>) -> (r: Result<DayOfWeek, DecodeError>)
    ensures
        match r {
            Ok(x) => day_field(m@) == Ok::<DayOfWeek, DecodeErrorView>(x),
            Err(e) => day_field(m@) == Err::<DayOfWeek, DecodeErrorView>(e@),
        },
{
    let s = match text_field_exec(m, Field::DayOfWeek) {
        Ok(s) => s,
        Err(e) => return Err(e),
    };
    match day_from_name(&s) {
        Some(t) => Ok(t),
        None => Err(DecodeError::UnknownVariant(Field::DayOfWeek, s)),
    }
}

/// A tag object.
pub open spec fn tag_of(v: Json) -> Result<TagView, DecodeErrorView> {
    match v {
        Json::Object(m) => {
            let tag_type = text_field(m@, Field::Type);
            let name = text_field(m@, Field::Name);
            if tag_type is Err {
                Err(tag_type->Err_0)
            } else if name is Err {
                Err(name->Err_0)
            } else {
                Ok(TagView { tag_type: tag_type->Ok_0, name: name->Ok_0 })
            }
        },
        _ => Err(DecodeErrorView::WrongType(Field::Tags)),
    }
}

pub open spec fn tag_decoder() -> spec_fn(Json) -> Result<TagView, DecodeErrorView> {
    |v: Json| tag_of(v)
}

/// A day-of-week financing object.
pub open spec fn day_entry_of(v: Json) -> Result<FinancingDayOfWeek, DecodeErrorView> {
    match v {
        Json::Object(m) => {
            let day = day_field(m@);
            let charged = int_field(m@, Field::DaysCharged);
            if day is Err {
                Err(day->Err_0)
            } else if charged is Err {
                Err(charged->Err_0)
            } else {
                Ok(FinancingDayOfWeek { day_of_week: day->Ok_0, days_charged: charged->Ok_0 })
            }
        },
        _ => Err(DecodeErrorView::WrongType(Field::FinancingDaysOfWeek)),
    }
}

pub open spec fn day_entry_decoder() -> spec_fn(Json) -> Result<FinancingDayOfWeek, DecodeErrorView> {
    |v: Json| day_entry_of(v)
}

/// An array member whose items decode with `f`.
pub open spec fn list_field<T>(
    m: Seq<(String, Json)>,
    field: Field,
    f: spec_fn(Json) -> Result<T, DecodeErrorView>,
) -> Result<Seq<T>, DecodeErrorView> {
    match member(m, field.spec_key()) {
        None => Err(DecodeErrorView::MissingField(field)),
        Some(Json::Array(a)) => all_decoded(a@, f),
        Some(_) => Err(DecodeErrorView::WrongType(field)),
    }
}

/// A financing object.
pub open spec fn financing_of(v: Json) -> Result<FinancingView, DecodeErrorView> {
    match v {
        Json::Object(m) => {
            let long_rate = decimal_field(m@, Field::LongRate);
            let short_rate = decimal_field(m@, Field::ShortRate);
            let days = list_field(m@, Field::FinancingDaysOfWeek, day_entry_decoder());
            if long_rate is Err {
                Err(long_rate->Err_0)
            } else if short_rate is Err {
                Err(short_rate->Err_0)
            } else if days is Err {
                Err(days->Err_0)
            } else {
                Ok(
                    FinancingView {
                        long_rate: long_rate->Ok_0,
                        short_rate: short_rate->Ok_0,
                        financing_days_of_week: days->Ok_0,
                    },
                )
            }
        },
        _ => Err(DecodeErrorView::WrongType(Field::Financing)),
    }
}

/// The financing member.
pub open spec fn financing_field(m: Seq<(String, Json)>) -> Result<FinancingView, DecodeErrorView> {
    match member(m, Field::Financing.spec_key()) {
        None => Err(DecodeErrorView::MissingField(Field::Financing)),
        Some(v) => financing_of(v),
    }
}

fn decode_tag(v: &Json) -> (r: Result<Tag, DecodeError>)
    ensures
        match r {
            Ok(t) => tag_of(*v) == Ok::<TagView, DecodeErrorView>(t@),
            Err(e) => tag_of(*v) == Err::<TagView, DecodeErrorView>(e@),
        },
{
    match v {
        Json::Object(m) => {
            let tag_type = match text_field_exec(m, Field::Type) {
                Ok(x) => x,
                Err(e) => return Err(e),
            };
            let name = match text_field_exec(m, Field::Name) {
                Ok(x) => x,
                Err(e) => return Err(e),
            };
            Ok(Tag { tag_type, name })
        },
        _ => Err(DecodeError::WrongType(Field::Tags)),
    }
}

fn decode_day_entry(v: &Json) -> (r: Result<FinancingDayOfWeek, DecodeError>)
    ensures
        match r {
            Ok(d) => day_entry_of(*v) == Ok::<FinancingDayOfWeek, DecodeErrorView>(d),
            Err(e) => day_entry_of(*v) == Err::<FinancingDayOfWeek, DecodeErrorView>(e@),
        },
{
    match v {
        Json::Object(m) => {
            let day_of_week = match day_field_exec(m) {
                Ok(x) => x,
                Err(e) => return Err(e),
            };
            let days_charged = match int_field_exec(m, Field::DaysCharged) {
                Ok(x) => x,
                Err(e) => return Err(e),
            };
            Ok(FinancingDayOfWeek { day_of_week, days_charged })
        },
        _ => Err(DecodeError::WrongType(Field::FinancingDaysOfWeek)),
    }
}

fn decode_tags(items: &Vec<Json>) -> (r: Result<Vec<Tag>, DecodeError>)
    ensures
        match r {
            Ok(t) => all_decoded(items@, tag_decoder()) == Ok::<Seq<TagView>, DecodeErrorView>(
                tags_view(t@),
            ),
            Err(e) => all_decoded(items@, tag_decoder()) == Err::<Seq<TagView>, DecodeErrorView>(
                e@,
            ),
        },
{
    let mut out: Vec<Tag> = Vec::new();
    let mut i: usize = 0;
    assert(items@.take(0) =~= Seq::<Json>::empty());
    assert(tags_view(out@) =~= Seq::<TagView>::empty());
    while i < items.len()
        invariant
            i <= items@.len(),
            all_decoded(items@.take(i as int), tag_decoder()) == Ok::<
                Seq<TagView>,
                DecodeErrorView,
            >(tags_view(out@)),
        decreases items.len() - i,
    {
        assert(items@.take(i + 1).drop_last() =~= items@.take(i as int));
        assert(items@.take(i + 1).last() == items@[i as int]);
        match decode_tag(&items[i]) {
            Ok(t) => {
                let ghost before = out@;
                out.push(t);
                assert(tags_view(out@) =~= tags_view(before).push(t@));
            },
            Err(e) => {
                proof {
                    lemma_failed_prefix(items@, tag_decoder(), i + 1);
                }
                return Err(e);
            },
        }
        i = i + 1;
    }
    assert(items@.take(i as int) =~= items@);
    Ok(out)
}

fn decode_day_entries(items: &Vec<Json>) -> (r: Result<Vec<FinancingDayOfWeek>, DecodeError>)
    ensures
        match r {
            Ok(d) => all_decoded(items@, day_entry_decoder()) == Ok::<
                Seq<FinancingDayOfWeek>,
                DecodeErrorView,
            >(d@),
            Err(e) => all_decoded(items@, day_entry_decoder()) == Err::<
                Seq<FinancingDayOfWeek>,
                DecodeErrorView,
            >(e@),
        },
{
    let mut out: Vec<FinancingDayOfWeek> = Vec::new();
    let mut i: usize = 0;
    assert(items@.take(0) =~= Seq::<Json>::empty());
    assert(out@ =~= Seq::<FinancingDayOfWeek>::empty());
    while i < items.len()
        invariant
            i <= items@.len(),
            all_decoded(items@.take(i as int), day_entry_decoder()) == Ok::<
                Seq<FinancingDayOfWeek>,
                DecodeErrorView,
            >(out@),
        decreases items.len() - i,
    {
        assert(items@.take(i + 1).drop_last() =~= items@.take(i as int));
        assert(items@.take(i + 1).last() == items@[i as int]);
        match decode_day_entry(&items[i]) {
            Ok(d) => {
                out.push(d);
            },
            Err(e) => {
                proof {
                    lemma_failed_prefix(items@, day_entry_decoder(), i + 1);
                }
                return Err(e);
            },
        }
        i = i + 1;
    }
    assert(items@.take(i as int) =~= items@);
    Ok(out)
}

fn decode_financing(v: &Json) -> (r: Result<Financing, DecodeError>)
    ensures
        match r {
            Ok(x) => financing_of(*v) == Ok::<FinancingView, DecodeErrorView>(x@),
            Err(e) => financing_of(*v) == Err::<FinancingView, DecodeErrorView>(e@),
        },
{
    match v {
        Json::Object(m) => {
            let long_rate = match decimal_field_exec(m, Field::LongRate) {
                Ok(x) => x,
                Err(e) => return Err(e),
            };
            let short_rate = match decimal_field_exec(m, Field::ShortRate) {
                Ok(x) => x,
                Err(e) => return Err(e),
            };
            let financing_days_of_week = match get_member(m, Field::FinancingDaysOfWeek.key()) {
                None => return Err(DecodeError::MissingField(Field::FinancingDaysOfWeek)),
                Some(Json::Array(a)) => match decode_day_entries(a) {
                    Ok(d) => d,
                    Err(e) => return Err(e),
                },
                Some(_) => return Err(DecodeError::WrongType(Field::FinancingDaysOfWeek)),
            };
            Ok(Financing { long_rate, short_rate, financing_days_of_week })
        },
        _ => Err(DecodeError::WrongType(Field::Financing)),
    }
}

/// An instrument object: each member read by its rule, the first failure
/// in the order below deciding the error.
pub open spec fn instrument_of(v: Json) -> Result<InstrumentView, DecodeErrorView> {
    match v {
        Json::Object(m) => {
            let m = m@;
            let name = text_field(m, Field::Name);
            let instrument_type = type_field(m);
            let display_name = text_field(m, Field::DisplayName);
            let pip_location = int_field(m, Field::PipLocation);
            let display_precision = int_field(m, Field::DisplayPrecision);
            let trade_units_precision = int_field(m, Field::TradeUnitsPrecision);
            let minimum_trade_size = decimal_field(m, Field::MinimumTradeSize);
            let maximum_trailing_stop_distance = decimal_field(
                m,
                Field::MaximumTrailingStopDistance,
            );
            let minimum_trailing_stop_distance = decimal_field(
                m,
                Field::MinimumTrailingStopDistance,
            );
            let maximum_position_size = decimal_field(m, Field::MaximumPositionSize);
            let maximum_order_units = decimal_field(m, Field::MaximumOrderUnits);
            let margin_rate = decimal_field(m, Field::MarginRate);
            let mode = mode_field(m);
            let tags = list_field(m, Field::Tags, tag_decoder());
            let financing = financing_field(m);
            if name is Err {
                Err(name->Err_0)
            } else if instrument_type is Err {
                Err(instrument_type->Err_0)
            } else if display_name is Err {
                Err(display_name->Err_0)
            } else if pip_location is Err {
                Err(pip_location->Err_0)
            } else if display_precision is Err {
                Err(display_precision->Err_0)
            } else if trade_units_precision is Err {
                Err(trade_units_precision->Err_0)
            } else if minimum_trade_size is Err {
                Err(minimum_trade_size->Err_0)
            } else if maximum_trailing_stop_distance is Err {
                Err(maximum_trailing_stop_distance->Err_0)
            } else if minimum_trailing_stop_distance is Err {
                Err(minimum_trailing_stop_distance->Err_0)
            } else if maximum_position_size is Err {
                Err(maximum_position_size->Err_0)
            } else if maximum_order_units is Err {
                Err(maximum_order_units->Err_0)
            } else if margin_rate is Err {
                Err(margin_rate->Err_0)
            } else if mode is Err {
                Err(mode->Err_0)
            } else if tags is Err {
                Err(tags->Err_0)
            } else if financing is Err {
                Err(financing->Err_0)
            } else {
                Ok(
                    InstrumentView {
                        name: name->Ok_0,
                        instrument_type: instrument_type->Ok_0,
                        display_name: display_name->Ok_0,
                        pip_location: pip_location->Ok_0,
                        display_precision: display_precision->Ok_0,
                        trade_units_precision: trade_units_precision->Ok_0,
                        minimum_trade_size: minimum_trade_size->Ok_0,
                        maximum_trailing_stop_distance: maximum_trailing_stop_distance->Ok_0,
                        minimum_trailing_stop_distance: minimum_trailing_stop_distance->Ok_0,
                        maximum_position_size: maximum_position_size->Ok_0,
                        maximum_order_units: maximum_order_units->Ok_0,
                        margin_rate: margin_rate->Ok_0,
                        guaranteed_stop_loss_order_mode: mode->Ok_0,
                        tags: tags->Ok_0,
                        financing: financing->Ok_0,
                    },
                )
            }
        },
        _ => Err(DecodeErrorView::WrongType(Field::Instruments)),
    }
}

pub open spec fn instrument_decoder() -> spec_fn(Json) -> Result<InstrumentView, DecodeErrorView> {
    |v: Json| instrument_of(v)
}

/// A document of instruments: an object whose `instruments` member is the
/// array, or the array itself.
pub open spec fn instruments_of(doc: Json) -> Result<Seq<InstrumentView>, DecodeErrorView> {
    match doc {
        Json::Object(m) => list_field(m@, Field::Instruments, instrument_decoder()),
        Json::Array(a) => all_decoded(a@, instrument_decoder()),
        _ => Err(DecodeErrorView::WrongType(Field::Instruments)),
    }
}

/// A response body: a JSON text holding a document of instruments.
pub open spec fn body_instruments(text: Seq<char>) -> Result<Seq<InstrumentView>, DecodeErrorView> {
    match json_of_text(text) {
        None => Err(DecodeErrorView::InvalidJson),
        Some(doc) => instruments_of(doc),
    }
}

/// Decodes one instrument object.
pub fn decode_instrument(v: &Json) -> (r: Result<Instrument, DecodeError>)
    ensures
        match r {
            Ok(x) => instrument_of(*v) == Ok::<InstrumentView, DecodeErrorView>(x@),
            Err(e) => instrument_of(*v) == Err::<InstrumentView, DecodeErrorView>(e@),
        },
{
    let m = match v {
        Json::Object(m) => m,
        _ => return Err(DecodeError::WrongType(Field::Instruments)),
    };
    let name = match text_field_exec(m, Field::Name) {
        Ok(x) => x,
        Err(e) => return Err(e),
    };
    let instrument_type = match type_field_exec(m) {
        Ok(x) => x,
        Err(e) => return Err(e),
    };
    let display_name = match text_field_exec(m, Field::DisplayName) {
        Ok(x) => x,
        Err(e) => return Err(e),
    };
    let pip_location = match int_field_exec(m, Field::PipLocation) {
        Ok(x) => x,
        Err(e) => return Err(e),
    };
    let display_precision = match int_field_exec(m, Field::DisplayPrecision) {
        Ok(x) => x,
        Err(e) => return Err(e),
    };
    let trade_units_precision = match int_field_exec(m, Field::TradeUnitsPrecision) {
        Ok(x) => x,
        Err(e) => return Err(e),
    };
    let minimum_trade_size = match decimal_field_exec(m, Field::MinimumTradeSize) {
        Ok(x) => x,
        Err(e) => return Err(e),
    };
    let maximum_trailing_stop_distance = match decimal_field_exec(
        m,
        Field::MaximumTrailingStopDistance,
    ) {
        Ok(x) => x,
        Err(e) => return Err(e),
    };
    let minimum_trailing_stop_distance = match decimal_field_exec(
        m,
        Field::MinimumTrailingStopDistance,
    ) {
        Ok(x) => x,
        Err(e) => return Err(e),
    };
    let maximum_position_size = match decimal_field_exec(m, Field::MaximumPositionSize) {
        Ok(x) => x,
        Err(e) => return Err(e),
    };
    let maximum_order_units = match decimal_field_exec(m, Field::MaximumOrderUnits) {
        Ok(x) => x,
        Err(e) => return Err(e),
    };
    let margin_rate = match decimal_field_exec(m, Field::MarginRate) {
        Ok(x) => x,
        Err(e) => return Err(e),
    };
    let guaranteed_stop_loss_order_mode = match mode_field_exec(m) {
        Ok(x) => x,
        Err(e) => return Err(e),
    };
    let tags = match get_member(m, Field::Tags.key()) {
        None => return Err(DecodeError::MissingField(Field::Tags)),
        Some(Json::Array(a)) => match decode_tags(a) {
            Ok(t) => t,
            Err(e) => return Err(e),
        },
        Some(_) => return Err(DecodeError::WrongType(Field::Tags)),
    };
    let financing = match get_member(m, Field::Financing.key()) {
        None => return Err(DecodeError::MissingField(Field::Financing)),
        Some(f) => match decode_financing(f) {
            Ok(x) => x,
            Err(e) => return Err(e),
        },
    };
    Ok(
        Instrument {
            name,
            instrument_type,
            display_name,
            pip_location,
            display_precision,
            trade_units_precision,
            minimum_trade_size,
            maximum_trailing_stop_distance,
            minimum_trailing_stop_distance,
            maximum_position_size,
            maximum_order_units,
            margin_rate,
            guaranteed_stop_loss_order_mode,
            tags,
            financing,
        },
    )
}

fn decode_instrument_list(items: &Vec<Json>) -> (r: Result<Vec<Instrument>, DecodeError>)
    ensures
        match r {
            Ok(v) => all_decoded(items@, instrument_decoder()) == Ok::<
                Seq<InstrumentView>,
                DecodeErrorView,
            >(instruments_view(v@)),
            Err(e) => all_decoded(items@, instrument_decoder()) == Err::<
                Seq<InstrumentView>,
                DecodeErrorView,
            >(e@),
        },
{
    let mut out: Vec<Instrument> = Vec::new();
    let mut i: usize = 0;
    assert(items@.take(0) =~= Seq::<Json>::empty());
    assert(instruments_view(out@) =~= Seq::<InstrumentView>::empty());
    while i < items.len()
        invariant
            i <= items@.len(),
            all_decoded(items@.take(i as int), instrument_decoder()) == Ok::<
                Seq<InstrumentView>,
                DecodeErrorView,
            >(instruments_view(out@)),
        decreases items.len() - i,
    {
        assert(items@.take(i + 1).drop_last() =~= items@.take(i as int));
        assert(items@.take(i + 1).last() == items@[i as int]);
        match decode_instrument(&items[i]) {
            Ok(x) => {
                let ghost before = out@;
                out.push(x);
                assert(instruments_view(out@) =~= instruments_view(before).push(x@));
            },
            Err(e) => {
                proof {
                    lemma_failed_prefix(items@, instrument_decoder(), i + 1);
                }
                return Err(e);
            },
        }
        i = i + 1;
    }
    assert(items@.take(i as int) =~= items@);
    Ok(out)
}

/// Decodes a document of instruments, all or nothing.
pub fn decode_instruments(doc: &Json) -> (r: Result<Vec<Instrument>, DecodeError>)
    ensures
        match r {
            Ok(v) => instruments_of(*doc) == Ok::<Seq<InstrumentView>, DecodeErrorView>(
                instruments_view(v@),
            ),
            Err(e) => instruments_of(*doc) == Err::<Seq<InstrumentView>, DecodeErrorView>(e@),
        },
{
    match doc {
        Json::Object(m) => match get_member(m, Field::Instruments.key()) {
            None => Err(DecodeError::MissingField(Field::Instruments)),
            Some(Json::Array(a)) => decode_instrument_list(a),
            Some(_) => Err(DecodeError::WrongType(Field::Instruments)),
        },
        Json::Array(a) => decode_instrument_list(a),
        _ => Err(DecodeError::WrongType(Field::Instruments)),
    }
}

/// Decodes a response body into instruments, all or nothing.
pub fn decode_instruments_body(text: &str) -> (r: Result<Vec<Instrument>, DecodeError>)
    ensures
        match r {
            Ok(v) => body_instruments(text@) == Ok::<Seq<InstrumentView>, DecodeErrorView>(
                instruments_view(v@),
            ),
            Err(e) => body_instruments(text@) == Err::<Seq<InstrumentView>, DecodeErrorView>(e@),
        },
{
    match parse_json(text) {
        None => Err(DecodeError::InvalidJson),
        Some(doc) => decode_instruments(&doc),
    }
}

/// The array of instrument objects that a document holds, if it holds one.
pub open spec fn instrument_items(doc: Json) -> Option<Seq<Json>> {
    match doc {
        Json::Object(m) => match member(m@, Field::Instruments.spec_key()) {
            Some(Json::Array(a)) => Some(a@),
            _ => None,
        },
        Json::Array(a) => Some(a@),
        _ => None,
    }
}

/// A document holding an array of K instrument objects decodes exactly when
/// each object does, and then into K instruments, the i-th decoded from the
/// i-th object.
pub proof fn lemma_instruments_keep_count_and_order(doc: Json)
    requires
        instrument_items(doc) is Some,
    ensures
        ({
            let items = instrument_items(doc)->Some_0;
            &&& (instruments_of(doc) is Ok) <==> (forall|i: int|
                0 <= i < items.len() ==> #[trigger] instrument_of(items[i]) is Ok)
            &&& instruments_of(doc) is Ok ==> {
                let out = instruments_of(doc)->Ok_0;
                &&& out.len() == items.len()
                &&& forall|i: int|
                    0 <= i < items.len() ==> #[trigger] instrument_of(items[i]) == Ok::<
                        InstrumentView,
                        DecodeErrorView,
                    >(out[i])
            }
        }),
{
    let items = instrument_items(doc)->Some_0;
    lemma_all_decoded(items, instrument_decoder());
    assert(instruments_of(doc) == all_decoded(items, instrument_decoder()));
    assert forall|i: int| 0 <= i < items.len() implies instrument_decoder()(items[i])
        == #[trigger] instrument_of(items[i]) by {}
}

} // verus!
