//! The underwriting engine: from approved figures to NOI, DSCR, cap rate, LTV and
//! GRM, with a step-by-step record of how each figure was derived and warnings
//! where a figure crosses a threshold; and the stress test that recomputes the
//! figures under changed assumptions.
//!
//! Every figure is a `Decimal`. Differences are exact; each quotient is the exact
//! quotient rounded down to a millionth.

use vstd::prelude::*;
use crate::decimal::{
    div_floor,
    floor_div,
    lemma_floor_div_within,
    magnitude,
    ratio_micros,
    two_places,
    unsigned_two_places,
    within,
    Decimal,
    LIMIT,
    SCALE,
};
use crate::text::{concat2, concat3, if_present, owned, text_view, views};

verus! {

/// The figures that an underwriting starts from. Collected rent and operating
/// expenses are always there; each of the others, where absent, leaves the
/// figures that depend on it uncomputed.
#[derive(Clone, Copy, Debug)]
pub struct UnderwritingInput {
    pub unit_count: Option<i32>,
    pub occupancy_rate: Option<Decimal>,
    pub gross_scheduled_rent: Option<Decimal>,
    pub collected_rent: Decimal,
    pub operating_expenses: Decimal,
    pub debt_service: Option<Decimal>,
    pub property_value: Option<Decimal>,
    pub mortgage_balance: Option<Decimal>,
    pub interest_rate: Option<Decimal>,
}

/// One entry of the audit trail: a figure, its formula, the named values that
/// went into it and what came out.
#[derive(Clone, Debug)]
pub struct CalculationStep {
    pub metric: String,
    pub formula: String,
    pub inputs: Vec<(String, Decimal)>,
    pub result: Decimal,
    /// Identifiers of the facts that contributed to this step.
    pub sources: Vec<String>,
}

/// What an underwriting yields.
#[derive(Clone, Debug)]
pub struct UnderwritingResult {
    pub noi: Decimal,
    pub dscr: Option<Decimal>,
    pub cash_flow_after_debt: Option<Decimal>,
    pub cap_rate: Option<Decimal>,
    pub ltv: Option<Decimal>,
    pub gross_rent_multiplier: Option<Decimal>,
    pub audit_trail: Vec<CalculationStep>,
    pub warnings: Vec<String>,
}

/// The facts that the figures of an input were read from, each by its
/// identifier. A figure that was not read from a fact has none.
#[derive(Clone, Debug)]
pub struct InputSources {
    pub gross_scheduled_rent: Option<String>,
    pub collected_rent: Option<String>,
    pub operating_expenses: Option<String>,
    pub debt_service: Option<String>,
    pub property_value: Option<String>,
    pub mortgage_balance: Option<String>,
}

/// `InputSources` as mathematics.
pub struct Sources {
    pub gross_scheduled_rent: Option<Seq<char>>,
    pub collected_rent: Option<Seq<char>>,
    pub operating_expenses: Option<Seq<char>>,
    pub debt_service: Option<Seq<char>>,
    pub property_value: Option<Seq<char>>,
    pub mortgage_balance: Option<Seq<char>>,
}

impl View for InputSources {
    type V = Sources;

    open spec fn view(&self) -> Sources {
        Sources {
            gross_scheduled_rent: text_view(self.gross_scheduled_rent),
            collected_rent: text_view(self.collected_rent),
            operating_expenses: text_view(self.operating_expenses),
            debt_service: text_view(self.debt_service),
            property_value: text_view(self.property_value),
            mortgage_balance: text_view(self.mortgage_balance),
        }
    }
}

/// No figure was read from a fact.
pub open spec fn no_sources() -> Sources {
    Sources {
        gross_scheduled_rent: None,
        collected_rent: None,
        operating_expenses: None,
        debt_service: None,
        property_value: None,
        mortgage_balance: None,
    }
}

impl InputSources {
    /// The sources of figures that were not read from facts.
    pub fn none() -> (sources: InputSources)
        ensures
            sources@ == no_sources(),
    {
        InputSources {
            gross_scheduled_rent: None,
            collected_rent: None,
            operating_expenses: None,
            debt_service: None,
            property_value: None,
            mortgage_balance: None,
        }
    }
}

/// A `CalculationStep` as mathematics: texts as character sequences, figures in
/// millionths.
pub struct CalculationStepView {
    pub metric: Seq<char>,
    pub formula: Seq<char>,
    pub inputs: Seq<(Seq<char>, int)>,
    pub result: int,
    pub sources: Seq<Seq<char>>,
}

/// An `UnderwritingResult` as mathematics.
pub struct UnderwritingResultView {
    pub noi: int,
    pub dscr: Option<int>,
    pub cash_flow_after_debt: Option<int>,
    pub cap_rate: Option<int>,
    pub ltv: Option<int>,
    pub gross_rent_multiplier: Option<int>,
    pub audit_trail: Seq<CalculationStepView>,
    pub warnings: Seq<Seq<char>>,
}

/// The millionths of a figure that may be absent.
pub open spec fn figure(d: Option<Decimal>) -> Option<int> {
    match d {
        Some(d) => Some(d.micros as int),
        None => None,
    }
}

/// Named values as mathematics.
pub open spec fn named_values(v: Seq<(String, Decimal)>) -> Seq<(Seq<char>, int)> {
    v.map_values(|p: (String, Decimal)| (p.0@, p.1.micros as int))
}

/// An audit trail as mathematics.
pub open spec fn steps_view(v: Seq<CalculationStep>) -> Seq<CalculationStepView> {
    v.map_values(|s: CalculationStep| s@)
}

impl View for CalculationStep {
    type V = CalculationStepView;

    open spec fn view(&self) -> CalculationStepView {
        CalculationStepView {
            metric: self.metric@,
            formula: self.formula@,
            inputs: named_values(self.inputs@),
            result: self.result.micros as int,
            sources: views(self.sources@),
        }
    }
}

impl View for UnderwritingResult {
    type V = UnderwritingResultView;

    open spec fn view(&self) -> UnderwritingResultView {
        UnderwritingResultView {
            noi: self.noi.micros as int,
            dscr: figure(self.dscr),
            cash_flow_after_debt: figure(self.cash_flow_after_debt),
            cap_rate: figure(self.cap_rate),
            ltv: figure(self.ltv),
            gross_rent_multiplier: figure(self.gross_rent_multiplier),
            audit_trail: steps_view(self.audit_trail@),
            warnings: views(self.warnings@),
        }
    }
}

/// A figure that may be absent lies within `LIMIT` where it is present.
pub open spec fn present_in_range(d: Option<Decimal>) -> bool {
    d matches Some(d) ==> d.in_range()
}

impl UnderwritingInput {
    /// Every figure given lies within `LIMIT`.
    pub open spec fn in_range(self) -> bool {
        &&& present_in_range(self.occupancy_rate)
        &&& present_in_range(self.gross_scheduled_rent)
        &&& self.collected_rent.in_range()
        &&& self.operating_expenses.in_range()
        &&& present_in_range(self.debt_service)
        &&& present_in_range(self.property_value)
        &&& present_in_range(self.mortgage_balance)
        &&& present_in_range(self.interest_rate)
    }

    /// Tests `in_range`.
    pub fn is_in_range(&self) -> (r: bool)
        ensures
            r == self.in_range(),
    {
        is_present_in_range(self.occupancy_rate) && is_present_in_range(self.gross_scheduled_rent)
            && self.collected_rent.is_in_range() && self.operating_expenses.is_in_range()
            && is_present_in_range(self.debt_service) && is_present_in_range(self.property_value)
            && is_present_in_range(self.mortgage_balance) && is_present_in_range(
            self.interest_rate,
        )
    }
}

/// Tests `present_in_range`.
pub fn is_present_in_range(d: Option<Decimal>) -> (r: bool)
    ensures
        r == present_in_range(d),
{
    match d {
        Some(d) => d.is_in_range(),
        None => true,
    }
}

/// The largest magnitude, in millionths, of a number that is divided by another:
/// with it, the scaled dividend of a percentage still fits the machine integer.
pub const DIVIDEND_LIMIT: i128 = 1_000_000_000_000_000_000_000_000_000_000;

/// `a / b` as a percentage in millionths, rounded down.
pub open spec fn percent_micros(a: int, b: int) -> int
    recommends
        b != 0,
{
    floor_div(a * 100 * SCALE as int, b)
}

/// Net operating income: collected rent less operating expenses.
pub open spec fn noi_of(input: UnderwritingInput) -> int {
    input.collected_rent.micros - input.operating_expenses.micros
}

/// The debt service coverage ratio for a given NOI and debt service: their
/// quotient, and zero where the debt service is not positive.
pub open spec fn dscr_value(noi: int, debt_service: int) -> int {
    if debt_service > 0 {
        ratio_micros(noi, debt_service)
    } else {
        0
    }
}

/// DSCR: there exactly when the debt service is.
pub open spec fn dscr_of(input: UnderwritingInput) -> Option<int> {
    match input.debt_service {
        Some(ds) => Some(dscr_value(noi_of(input), ds.micros as int)),
        None => None,
    }
}

/// Cash flow after debt, NOI less debt service: there exactly when the debt
/// service is.
pub open spec fn cash_flow_of(input: UnderwritingInput) -> Option<int> {
    match input.debt_service {
        Some(ds) => Some(noi_of(input) - ds.micros),
        None => None,
    }
}

/// The property value where it is given and positive.
pub open spec fn positive_value(input: UnderwritingInput) -> Option<int> {
    match input.property_value {
        Some(v) => if v.micros > 0 {
            Some(v.micros as int)
        } else {
            None
        },
        None => None,
    }
}

/// Cap rate, NOI as a percentage of the property value: there exactly when the
/// property value is given and positive.
pub open spec fn cap_rate_of(input: UnderwritingInput) -> Option<int> {
    match positive_value(input) {
        Some(v) => Some(percent_micros(noi_of(input), v)),
        None => None,
    }
}

/// Loan-to-value, the mortgage balance as a percentage of the property value:
/// there exactly when both are given and the property value is positive.
pub open spec fn ltv_of(input: UnderwritingInput) -> Option<int> {
    match (input.mortgage_balance, positive_value(input)) {
        (Some(m), Some(v)) => Some(percent_micros(m.micros as int, v)),
        _ => None,
    }
}

/// Gross rent multiplier, the property value over the gross scheduled rent:
/// there exactly when both are given and the rent is positive.
pub open spec fn grm_of(input: UnderwritingInput) -> Option<int> {
    match (input.gross_scheduled_rent, input.property_value) {
        (Some(g), Some(v)) => if g.micros > 0 {
            Some(ratio_micros(v.micros as int, g.micros as int))
        } else {
            None
        },
        _ => None,
    }
}

/// A step with two named inputs.
pub open spec fn step_of(
    metric: Seq<char>,
    formula: Seq<char>,
    first: (Seq<char>, int),
    second: (Seq<char>, int),
    result: int,
    sources: Seq<Seq<char>>,
) -> CalculationStepView {
    CalculationStepView { metric, formula, inputs: seq![first, second], result, sources }
}

/// The facts behind the NOI: those of the collected rent and of the operating
/// expenses.
pub open spec fn noi_sources(sources: Sources) -> Seq<Seq<char>> {
    if_present(sources.collected_rent) + if_present(sources.operating_expenses)
}

/// The facts behind the figures derived from NOI and debt service.
pub open spec fn debt_sources(sources: Sources) -> Seq<Seq<char>> {
    noi_sources(sources) + if_present(sources.debt_service)
}

/// The facts behind the cap rate.
pub open spec fn cap_rate_sources(sources: Sources) -> Seq<Seq<char>> {
    noi_sources(sources) + if_present(sources.property_value)
}

/// The facts behind the LTV.
pub open spec fn ltv_sources(sources: Sources) -> Seq<Seq<char>> {
    if_present(sources.mortgage_balance) + if_present(sources.property_value)
}

/// The facts behind the gross rent multiplier.
pub open spec fn grm_sources(sources: Sources) -> Seq<Seq<char>> {
    if_present(sources.property_value) + if_present(sources.gross_scheduled_rent)
}

/// The first entry of every audit trail.
pub open spec fn noi_step(input: UnderwritingInput, sources: Sources) -> CalculationStepView {
    step_of(
        "NOI (Net Operating Income)"@,
        "Collected Rent - Operating Expenses"@,
        ("Collected Rent"@, input.collected_rent.micros as int),
        ("Operating Expenses"@, input.operating_expenses.micros as int),
        noi_of(input),
        noi_sources(sources),
    )
}

/// The step that derives the DSCR.
pub open spec fn dscr_step(noi: int, debt_service: int, sources: Sources) -> CalculationStepView {
    step_of(
        "DSCR (Debt Service Coverage Ratio)"@,
        "NOI / Annual Debt Service"@,
        ("NOI"@, noi),
        ("Annual Debt Service"@, debt_service),
        dscr_value(noi, debt_service),
        debt_sources(sources),
    )
}

/// The step that derives the cash flow after debt.
pub open spec fn cash_flow_step(noi: int, debt_service: int, sources: Sources)
    -> CalculationStepView {
    step_of(
        "Cash Flow After Debt"@,
        "NOI - Annual Debt Service"@,
        ("NOI"@, noi),
        ("Annual Debt Service"@, debt_service),
        noi - debt_service,
        debt_sources(sources),
    )
}

/// The step that derives the cap rate.
pub open spec fn cap_rate_step(noi: int, value: int, sources: Sources) -> CalculationStepView {
    step_of(
        "Cap Rate"@,
        "(NOI / Property Value) * 100"@,
        ("NOI"@, noi),
        ("Property Value"@, value),
        percent_micros(noi, value),
        cap_rate_sources(sources),
    )
}

/// The step that derives the LTV.
pub open spec fn ltv_step(mortgage: int, value: int, sources: Sources) -> CalculationStepView {
    step_of(
        "LTV (Loan-to-Value)"@,
        "(Mortgage Balance / Property Value) * 100"@,
        ("Mortgage Balance"@, mortgage),
        ("Property Value"@, value),
        percent_micros(mortgage, value),
        ltv_sources(sources),
    )
}

/// The step that derives the gross rent multiplier.
pub open spec fn grm_step(value: int, rent: int, sources: Sources) -> CalculationStepView {
    step_of(
        "Gross Rent Multiplier"@,
        "Property Value / Gross Scheduled Rent"@,
        ("Property Value"@, value),
        ("Gross Scheduled Rent"@, rent),
        ratio_micros(value, rent),
        grm_sources(sources),
    )
}

/// The steps that the debt service adds: DSCR, then cash flow after debt.
pub open spec fn debt_steps(noi: int, debt_service: Option<int>, sources: Sources) -> Seq<
    CalculationStepView,
> {
    match debt_service {
        Some(ds) => seq![dscr_step(noi, ds, sources), cash_flow_step(noi, ds, sources)],
        None => Seq::empty(),
    }
}

/// The audit trail: NOI first, then each further figure that could be computed,
/// in the order DSCR, cash flow after debt, cap rate, LTV, GRM. Each step names
/// the facts that its inputs go back to.
pub open spec fn audit_trail_from(input: UnderwritingInput, sources: Sources) -> Seq<
    CalculationStepView,
> {
    let noi = noi_of(input);
    seq![noi_step(input, sources)] + debt_steps(noi, figure(input.debt_service), sources)
        + if_present(
        match positive_value(input) {
            Some(v) => Some(cap_rate_step(noi, v, sources)),
            None => None,
        },
    ) + if_present(
        match (input.mortgage_balance, positive_value(input)) {
            (Some(m), Some(v)) => Some(ltv_step(m.micros as int, v, sources)),
            _ => None,
        },
    ) + if_present(
        match (input.gross_scheduled_rent, input.property_value) {
            (Some(g), Some(v)) => if g.micros > 0 {
                Some(grm_step(v.micros as int, g.micros as int, sources))
            } else {
                None
            },
            _ => None,
        },
    )
}

/// The audit trail of figures that were not read from facts.
pub open spec fn audit_trail_of(input: UnderwritingInput) -> Seq<CalculationStepView> {
    audit_trail_from(input, no_sources())
}

/// The warning that a DSCR draws: critical below 1.0, a warning from 1.0 up to
/// but not including 1.25, none from there on.
pub open spec fn dscr_warning(ratio: int) -> Option<Seq<char>> {
    if ratio < 1_000_000 {
        Some(
            "Critical: DSCR of "@ + two_places(ratio)
                + " is below 1.0 - property cannot cover debt service"@,
        )
    } else if ratio < 1_250_000 {
        Some("Warning: DSCR of "@ + two_places(ratio) + " is below recommended 1.25 threshold"@)
    } else {
        None
    }
}

/// The warning that a negative cash flow draws.
pub open spec fn cash_flow_warning(cash_flow: int) -> Option<Seq<char>> {
    if cash_flow < 0 {
        Some("Critical: Negative cash flow of $"@ + unsigned_two_places(magnitude(cash_flow)))
    } else {
        None
    }
}

/// The note that a cap rate draws: one below 4%, another above 12%.
pub open spec fn cap_rate_warning(rate: int) -> Option<Seq<char>> {
    if rate < 4_000_000 {
        Some("Note: Cap rate of "@ + two_places(rate) + "% is relatively low"@)
    } else if rate > 12_000_000 {
        Some(
            "Note: Cap rate of "@ + two_places(rate)
                + "% is relatively high - may indicate higher risk"@,
        )
    } else {
        None
    }
}

/// The warning that an LTV above 80% draws.
pub open spec fn ltv_warning(ratio: int) -> Option<Seq<char>> {
    if ratio > 80_000_000 {
        Some("Warning: LTV of "@ + two_places(ratio) + "% is above 80%"@)
    } else {
        None
    }
}

/// The warnings that the debt service adds: for the DSCR, then for the cash flow.
pub open spec fn debt_warnings(noi: int, debt_service: Option<int>) -> Seq<Seq<char>> {
    match debt_service {
        Some(ds) => if_present(dscr_warning(dscr_value(noi, ds))) + if_present(
            cash_flow_warning(noi - ds),
        ),
        None => Seq::empty(),
    }
}

/// The notes on what could not be computed because a figure was not given.
pub open spec fn missing_notes(input: UnderwritingInput) -> Seq<Seq<char>> {
    (if input.debt_service is None {
        seq!["Note: Debt service not provided - DSCR cannot be calculated"@]
    } else {
        Seq::empty()
    }) + (if input.property_value is None {
        seq!["Note: Property value not provided - Cap Rate and LTV cannot be calculated"@]
    } else {
        Seq::empty()
    })
}

/// The warnings, in the order in which the figures are derived, followed by the
/// notes on missing figures.
pub open spec fn warnings_of(input: UnderwritingInput) -> Seq<Seq<char>> {
    debt_warnings(noi_of(input), figure(input.debt_service)) + if_present(
        match cap_rate_of(input) {
            Some(rate) => cap_rate_warning(rate),
            None => None,
        },
    ) + if_present(
        match ltv_of(input) {
            Some(ratio) => ltv_warning(ratio),
            None => None,
        },
    ) + missing_notes(input)
}

/// The result of an underwriting, as a function of its input and of the facts
/// that the input was read from.
pub open spec fn underwriting_from(input: UnderwritingInput, sources: Sources)
    -> UnderwritingResultView {
    UnderwritingResultView {
        noi: noi_of(input),
        dscr: dscr_of(input),
        cash_flow_after_debt: cash_flow_of(input),
        cap_rate: cap_rate_of(input),
        ltv: ltv_of(input),
        gross_rent_multiplier: grm_of(input),
        audit_trail: audit_trail_from(input, sources),
        warnings: warnings_of(input),
    }
}

/// The result of an underwriting of figures that were not read from facts.
pub open spec fn underwriting_of(input: UnderwritingInput) -> UnderwritingResultView {
    underwriting_from(input, no_sources())
}

/// The identifiers that are there, in order.
fn source_list(first: &Option<String>, second: &Option<String>, third: &Option<String>) -> (list:
    Vec<String>)
    ensures
        views(list@) == if_present(text_view(*first)) + if_present(text_view(*second))
            + if_present(text_view(*third)),
{
    let mut list: Vec<String> = Vec::new();
    assert(views(list@) =~= Seq::<Seq<char>>::empty());
    push_if_present(
        &mut list,
        match first {
            Some(id) => Some(owned(id.as_str())),
            None => None,
        },
    );
    push_if_present(
        &mut list,
        match second {
            Some(id) => Some(owned(id.as_str())),
            None => None,
        },
    );
    push_if_present(
        &mut list,
        match third {
            Some(id) => Some(owned(id.as_str())),
            None => None,
        },
    );
    proof {
        assert(views(list@) =~= if_present(text_view(*first)) + if_present(text_view(*second))
            + if_present(text_view(*third)));
    }
    list
}

/// The identifiers of the facts behind the NOI.
fn noi_source_list(sources: &InputSources) -> (list: Vec<String>)
    ensures
        views(list@) == noi_sources(sources@),
{
    let list = source_list(&sources.collected_rent, &sources.operating_expenses, &None);
    proof {
        assert(views(list@) =~= noi_sources(sources@));
    }
    list
}

/// The identifiers of the facts behind a figure derived from the NOI and one
/// more figure.
fn noi_and_source_list(sources: &InputSources, third: &Option<String>) -> (list: Vec<String>)
    ensures
        views(list@) == noi_sources(sources@) + if_present(text_view(*third)),
{
    source_list(&sources.collected_rent, &sources.operating_expenses, third)
}

/// The identifiers of the facts behind a figure derived from two figures.
fn pair_source_list(first: &Option<String>, second: &Option<String>) -> (list: Vec<String>)
    ensures
        views(list@) == if_present(text_view(*first)) + if_present(text_view(*second)),
{
    let list = source_list(first, second, &None);
    proof {
        assert(views(list@) =~= if_present(text_view(*first)) + if_present(text_view(*second)));
    }
    list
}

/// A step with two named inputs.
fn two_input_step(
    metric: &str,
    formula: &str,
    first_name: &str,
    first: Decimal,
    second_name: &str,
    second: Decimal,
    result: Decimal,
    sources: Vec<String>,
) -> (step: CalculationStep)
    ensures
        step@ == step_of(
            metric@,
            formula@,
            (first_name@, first.micros as int),
            (second_name@, second.micros as int),
            result.micros as int,
            views(sources@),
        ),
{
    let mut inputs: Vec<(String, Decimal)> = Vec::new();
    inputs.push((owned(first_name), first));
    inputs.push((owned(second_name), second));
    let step = CalculationStep {
        metric: owned(metric),
        formula: owned(formula),
        inputs,
        result,
        sources,
    };
    proof {
        assert(step@.inputs =~= seq![
            (first_name@, first.micros as int),
            (second_name@, second.micros as int),
        ]);
    }
    step
}

/// Appends a step to an audit trail.
fn push_step(trail: &mut Vec<CalculationStep>, step: CalculationStep)
    ensures
        steps_view(final(trail)@) == steps_view(old(trail)@).push(step@),
{
    trail.push(step);
    proof {
        assert(steps_view(trail@) =~= steps_view(old(trail)@).push(step@));
    }
}

/// Appends a text to a list of texts.
fn push_text(list: &mut Vec<String>, text: String)
    ensures
        views(final(list)@) == views(old(list)@).push(text@),
{
    list.push(text);
    proof {
        assert(views(list@) =~= views(old(list)@).push(text@));
    }
}

/// Appends a text that may be absent.
fn push_if_present(list: &mut Vec<String>, text: Option<String>)
    ensures
        views(final(list)@) == views(old(list)@) + if_present(
            match text {
                Some(t) => Some(t@),
                None => None,
            },
        ),
{
    match text {
        Some(t) => {
            push_text(list, t);
            proof {
                assert(views(list@) =~= views(old(list)@) + seq![t@]);
            }
        },
        None => {
            proof {
                assert(views(list@) =~= views(old(list)@) + Seq::<Seq<char>>::empty());
            }
        },
    }
}

/// `a / b` in millionths, rounded down.
fn ratio(a: Decimal, b: Decimal) -> (r: Decimal)
    requires
        within(a.micros as int, DIVIDEND_LIMIT as int),
        b.micros != 0,
        b.micros > i128::MIN,
    ensures
        r.micros == ratio_micros(a.micros as int, b.micros as int),
        within(r.micros as int, magnitude(a.micros as int) * SCALE),
{
    let scaled: i128 = a.micros * SCALE;
    Decimal { micros: div_floor(scaled, b.micros) }
}

/// `a / b` as a percentage in millionths, rounded down.
fn percent(a: Decimal, b: Decimal) -> (r: Decimal)
    requires
        within(a.micros as int, DIVIDEND_LIMIT as int),
        b.micros != 0,
        b.micros > i128::MIN,
    ensures
        r.micros == percent_micros(a.micros as int, b.micros as int),
        within(r.micros as int, magnitude(a.micros as int) * 100 * SCALE),
{
    let scaled: i128 = a.micros * 100 * SCALE;
    Decimal { micros: div_floor(scaled, b.micros) }
}

/// The text of the warning that a DSCR draws, if any.
fn dscr_warning_text(ratio: Decimal) -> (w: Option<String>)
    ensures
        (match w {
            Some(t) => Some(t@),
            None => None,
        }) == dscr_warning(ratio.micros as int),
{
    if ratio.micros < 1_000_000 {
        Some(
            concat3(
                "Critical: DSCR of ",
                ratio.format_2dp().as_str(),
                " is below 1.0 - property cannot cover debt service",
            ),
        )
    } else if ratio.micros < 1_250_000 {
        Some(
            concat3(
                "Warning: DSCR of ",
                ratio.format_2dp().as_str(),
                " is below recommended 1.25 threshold",
            ),
        )
    } else {
        None
    }
}

/// The text of the warning that a cash flow draws, if any.
fn cash_flow_warning_text(cash_flow: Decimal) -> (w: Option<String>)
    ensures
        (match w {
            Some(t) => Some(t@),
            None => None,
        }) == cash_flow_warning(cash_flow.micros as int),
{
    if cash_flow.micros < 0 {
        Some(
            concat2("Critical: Negative cash flow of $", cash_flow.format_magnitude_2dp().as_str()),
        )
    } else {
        None
    }
}

/// The text of the note that a cap rate draws, if any.
fn cap_rate_warning_text(rate: Decimal) -> (w: Option<String>)
    ensures
        (match w {
            Some(t) => Some(t@),
            None => None,
        }) == cap_rate_warning(rate.micros as int),
{
    if rate.micros < 4_000_000 {
        Some(concat3("Note: Cap rate of ", rate.format_2dp().as_str(), "% is relatively low"))
    } else if rate.micros > 12_000_000 {
        Some(
            concat3(
                "Note: Cap rate of ",
                rate.format_2dp().as_str(),
                "% is relatively high - may indicate higher risk",
            ),
        )
    } else {
        None
    }
}

/// The text of the warning that an LTV draws, if any.
fn ltv_warning_text(ratio: Decimal) -> (w: Option<String>)
    ensures
        (match w {
            Some(t) => Some(t@),
            None => None,
        }) == ltv_warning(ratio.micros as int),
{
    if ratio.micros > 80_000_000 {
        Some(concat3("Warning: LTV of ", ratio.format_2dp().as_str(), "% is above 80%"))
    } else {
        None
    }
}

/// Derives DSCR and cash flow after debt from the debt service, where it is
/// given, and records both.
fn derive_debt_figures(
    noi: Decimal,
    debt_service: Option<Decimal>,
    sources: &InputSources,
    trail: &mut Vec<CalculationStep>,
    warnings: &mut Vec<String>,
) -> (r: (Option<Decimal>, Option<Decimal>))
    requires
        within(noi.micros as int, 2 * LIMIT),
        present_in_range(debt_service),
    ensures
        figure(r.0) == (match debt_service {
            Some(ds) => Some(dscr_value(noi.micros as int, ds.micros as int)),
            None => None,
        }),
        figure(r.1) == (match debt_service {
            Some(ds) => Some(noi.micros - ds.micros),
            None => None,
        }),
        steps_view(final(trail)@) == steps_view(old(trail)@) + debt_steps(
            noi.micros as int,
            figure(debt_service),
            sources@,
        ),
        views(final(warnings)@) == views(old(warnings)@) + debt_warnings(
            noi.micros as int,
            figure(debt_service),
        ),
{
    match debt_service {
        Some(ds) => {
            let dscr = if ds.micros > 0 {
                ratio(noi, ds)
            } else {
                Decimal::zero()
            };
            push_step(
                trail,
                two_input_step(
                    "DSCR (Debt Service Coverage Ratio)",
                    "NOI / Annual Debt Service",
                    "NOI",
                    noi,
                    "Annual Debt Service",
                    ds,
                    dscr,
                    noi_and_source_list(sources, &sources.debt_service),
                ),
            );
            push_if_present(warnings, dscr_warning_text(dscr));
            let cash_flow = Decimal { micros: noi.micros - ds.micros };
            push_step(
                trail,
                two_input_step(
                    "Cash Flow After Debt",
                    "NOI - Annual Debt Service",
                    "NOI",
                    noi,
                    "Annual Debt Service",
                    ds,
                    cash_flow,
                    noi_and_source_list(sources, &sources.debt_service),
                ),
            );
            push_if_present(warnings, cash_flow_warning_text(cash_flow));
            proof {
                assert(steps_view(trail@) =~= steps_view(old(trail)@) + debt_steps(
                    noi.micros as int,
                    figure(debt_service),
                    sources@,
                ));
                assert(views(warnings@) =~= views(old(warnings)@) + debt_warnings(
                    noi.micros as int,
                    figure(debt_service),
                ));
            }
            (Some(dscr), Some(cash_flow))
        },
        None => {
            proof {
                assert(steps_view(trail@) =~= steps_view(old(trail)@) + debt_steps(
                    noi.micros as int,
                    figure(debt_service),
                    sources@,
                ));
                assert(views(warnings@) =~= views(old(warnings)@) + debt_warnings(
                    noi.micros as int,
                    figure(debt_service),
                ));
            }
            (None, None)
        },
    }
}

/// Derives the cap rate from a positive property value and records it.
fn derive_cap_rate(
    noi: Decimal,
    value: Decimal,
    sources: &InputSources,
    trail: &mut Vec<CalculationStep>,
    warnings: &mut Vec<String>,
) -> (rate: Decimal)
    requires
        within(noi.micros as int, 2 * LIMIT),
        value.micros > 0,
    ensures
        rate.micros == percent_micros(noi.micros as int, value.micros as int),
        steps_view(final(trail)@) == steps_view(old(trail)@).push(
            cap_rate_step(noi.micros as int, value.micros as int, sources@),
        ),
        views(final(warnings)@) == views(old(warnings)@) + if_present(
            cap_rate_warning(rate.micros as int),
        ),
{
    let rate = percent(noi, value);
    push_step(
        trail,
        two_input_step(
            "Cap Rate",
            "(NOI / Property Value) * 100",
            "NOI",
            noi,
            "Property Value",
            value,
            rate,
            noi_and_source_list(sources, &sources.property_value),
        ),
    );
    push_if_present(warnings, cap_rate_warning_text(rate));
    rate
}

/// Derives the LTV from a mortgage balance and a positive property value, and
/// records it.
fn derive_ltv(
    mortgage: Decimal,
    value: Decimal,
    sources: &InputSources,
    trail: &mut Vec<CalculationStep>,
    warnings: &mut Vec<String>,
) -> (ltv: Decimal)
    requires
        mortgage.in_range(),
        value.micros > 0,
    ensures
        ltv.micros == percent_micros(mortgage.micros as int, value.micros as int),
        steps_view(final(trail)@) == steps_view(old(trail)@).push(
            ltv_step(mortgage.micros as int, value.micros as int, sources@),
        ),
        views(final(warnings)@) == views(old(warnings)@) + if_present(
            ltv_warning(ltv.micros as int),
        ),
{
    let ltv = percent(mortgage, value);
    push_step(
        trail,
        two_input_step(
            "LTV (Loan-to-Value)",
            "(Mortgage Balance / Property Value) * 100",
            "Mortgage Balance",
            mortgage,
            "Property Value",
            value,
            ltv,
            pair_source_list(&sources.mortgage_balance, &sources.property_value),
        ),
    );
    push_if_present(warnings, ltv_warning_text(ltv));
    ltv
}

/// Derives the gross rent multiplier from a property value and a positive gross
/// scheduled rent, and records it.
fn derive_grm(
    value: Decimal,
    rent: Decimal,
    sources: &InputSources,
    trail: &mut Vec<CalculationStep>,
) -> (grm: Decimal)
    requires
        value.in_range(),
        rent.micros > 0,
    ensures
        grm.micros == ratio_micros(value.micros as int, rent.micros as int),
        steps_view(final(trail)@) == steps_view(old(trail)@).push(
            grm_step(value.micros as int, rent.micros as int, sources@),
        ),
{
    let grm = ratio(value, rent);
    push_step(
        trail,
        two_input_step(
            "Gross Rent Multiplier",
            "Property Value / Gross Scheduled Rent",
            "Property Value",
            value,
            "Gross Scheduled Rent",
            rent,
            grm,
            pair_source_list(&sources.property_value, &sources.gross_scheduled_rent),
        ),
    );
    grm
}

/// Appends the notes on figures that were not given.
fn note_missing(input: &UnderwritingInput, warnings: &mut Vec<String>)
    ensures
        views(final(warnings)@) == views(old(warnings)@) + missing_notes(*input),
{
    if input.debt_service.is_none() {
        push_text(warnings, owned("Note: Debt service not provided - DSCR cannot be calculated"));
    }
    if input.property_value.is_none() {
        push_text(
            warnings,
            owned("Note: Property value not provided - Cap Rate and LTV cannot be calculated"),
        );
    }
    proof {
        assert(views(warnings@) =~= views(old(warnings)@) + missing_notes(*input));
    }
}

/// Calculates the underwriting figures from the input.
///
/// The result is a function of the input alone: the figures, the audit trail
/// with its entries in the order of derivation, and the warnings are exactly
/// those of `underwriting_of`. No step names a fact as its source.
pub fn calculate_underwriting(input: UnderwritingInput) -> (result: UnderwritingResult)
    requires
        input.in_range(),
    ensures
        result@ == underwriting_of(input),
{
    calculate_underwriting_from(input, &InputSources::none())
}

/// Calculates the underwriting figures from an input that was read from facts.
///
/// The figures and the warnings are those of `calculate_underwriting`; each
/// step of the audit trail names the facts that its inputs go back to.
pub fn calculate_underwriting_from(input: UnderwritingInput, sources: &InputSources) -> (result:
    UnderwritingResult)
    requires
        input.in_range(),
    ensures
        result@ == underwriting_from(input, sources@),
{
    let mut audit_trail: Vec<CalculationStep> = Vec::new();
    let mut warnings: Vec<String> = Vec::new();

    let noi = Decimal { micros: input.collected_rent.micros - input.operating_expenses.micros };
    push_step(
        &mut audit_trail,
        two_input_step(
            "NOI (Net Operating Income)",
            "Collected Rent - Operating Expenses",
            "Collected Rent",
            input.collected_rent,
            "Operating Expenses",
            input.operating_expenses,
            noi,
            noi_source_list(sources),
        ),
    );
    let ghost trail_0 = steps_view(audit_trail@);
    assert(trail_0 =~= seq![noi_step(input, sources@)]);
    assert(views(warnings@) =~= Seq::<Seq<char>>::empty());

    let (dscr, cash_flow_after_debt) = derive_debt_figures(
        noi,
        input.debt_service,
        sources,
        &mut audit_trail,
        &mut warnings,
    );
    let ghost trail_1 = steps_view(audit_trail@);
    let ghost warnings_1 = views(warnings@);

    let value: Option<Decimal> = match input.property_value {
        Some(v) => if v.micros > 0 {
            Some(v)
        } else {
            None
        },
        None => None,
    };
    assert(figure(value) == positive_value(input));

    let cap_rate = match value {
        Some(v) => Some(derive_cap_rate(noi, v, sources, &mut audit_trail, &mut warnings)),
        None => None,
    };
    let ghost trail_2 = steps_view(audit_trail@);
    let ghost warnings_2 = views(warnings@);

    let ltv = match (input.mortgage_balance, value) {
        (Some(m), Some(v)) => Some(derive_ltv(m, v, sources, &mut audit_trail, &mut warnings)),
        _ => None,
    };
    let ghost trail_3 = steps_view(audit_trail@);
    let ghost warnings_3 = views(warnings@);

    let gross_rent_multiplier = match (input.gross_scheduled_rent, input.property_value) {
        (Some(g), Some(v)) => if g.micros > 0 {
            Some(derive_grm(v, g, sources, &mut audit_trail))
        } else {
            None
        },
        _ => None,
    };

    note_missing(&input, &mut warnings);

    let result = UnderwritingResult {
        noi,
        dscr,
        cash_flow_after_debt,
        cap_rate,
        ltv,
        gross_rent_multiplier,
        audit_trail,
        warnings,
    };
    proof {
        let expected = underwriting_from(input, sources@);
        assert(result@.audit_trail =~= expected.audit_trail);
        assert(result@.warnings =~= expected.warnings);
    }
    result
}

/// Changes to the assumptions of an underwriting: percentages for occupancy,
/// rent and operating expenses, basis points for the interest rate.
#[derive(Clone, Debug)]
pub struct StressTestInput {
    pub base_result: UnderwritingResult,
    pub occupancy_adjustment: Option<Decimal>,
    pub rent_adjustment: Option<Decimal>,
    pub expense_adjustment: Option<Decimal>,
    pub interest_rate_adjustment: Option<Decimal>,
}

/// How the stressed figures differ from those of the base case.
#[derive(Clone, Copy, Debug)]
pub struct StressTestComparison {
    pub noi_change: Decimal,
    pub noi_change_pct: Decimal,
    pub dscr_change: Option<Decimal>,
    pub cash_flow_change: Option<Decimal>,
}

/// The figures recomputed under the changed assumptions.
#[derive(Clone, Copy, Debug)]
pub struct StressTestResult {
    pub stressed_noi: Decimal,
    pub stressed_dscr: Option<Decimal>,
    pub stressed_cash_flow: Option<Decimal>,
    pub comparison: StressTestComparison,
}

/// A `StressTestResult` as mathematics.
pub struct StressTestOutcome {
    pub stressed_noi: int,
    pub stressed_dscr: Option<int>,
    pub stressed_cash_flow: Option<int>,
    pub noi_change: int,
    pub noi_change_pct: int,
    pub dscr_change: Option<int>,
    pub cash_flow_change: Option<int>,
}

impl View for StressTestResult {
    type V = StressTestOutcome;

    open spec fn view(&self) -> StressTestOutcome {
        StressTestOutcome {
            stressed_noi: self.stressed_noi.micros as int,
            stressed_dscr: figure(self.stressed_dscr),
            stressed_cash_flow: figure(self.stressed_cash_flow),
            noi_change: self.comparison.noi_change.micros as int,
            noi_change_pct: self.comparison.noi_change_pct.micros as int,
            dscr_change: figure(self.comparison.dscr_change),
            cash_flow_change: figure(self.comparison.cash_flow_change),
        }
    }
}

/// One hundred percent, in millionths of a percent.
pub const FULL_PERCENT: i128 = 100_000_000;

/// Ten thousand basis points, in millionths of a basis point.
pub const FULL_BASIS_POINTS: i128 = 10_000_000_000;

/// All named inputs of an audit trail, in the order in which they were recorded.
pub open spec fn recorded_inputs(trail: Seq<CalculationStepView>) -> Seq<(Seq<char>, int)>
    decreases trail.len(),
{
    if trail.len() == 0 {
        Seq::empty()
    } else {
        recorded_inputs(trail.drop_last()) + trail.last().inputs
    }
}

/// The value that was recorded last under `label`; zero where none was.
pub open spec fn last_recorded(inputs: Seq<(Seq<char>, int)>, label: Seq<char>) -> int
    decreases inputs.len(),
{
    if inputs.len() == 0 {
        0
    } else if inputs.last().0 == label {
        inputs.last().1
    } else {
        last_recorded(inputs.drop_last(), label)
    }
}

/// The value that an audit trail holds under `label`.
pub open spec fn recovered(trail: Seq<CalculationStepView>, label: Seq<char>) -> int {
    last_recorded(recorded_inputs(trail), label)
}

/// `value` changed by `change` parts in `full`: `value * (1 + change / full)`,
/// rounded down; `value` itself where no change is asked for.
pub open spec fn adjusted(value: int, change: Option<int>, full: int) -> int {
    match change {
        Some(c) => floor_div(value * (full + c), full),
        None => value,
    }
}

/// The collected rent under stress.
pub open spec fn stressed_rent(base: UnderwritingResultView, change: Option<int>) -> int {
    adjusted(recovered(base.audit_trail, "Collected Rent"@), change, FULL_PERCENT as int)
}

/// The operating expenses under stress.
pub open spec fn stressed_expenses(base: UnderwritingResultView, change: Option<int>) -> int {
    adjusted(recovered(base.audit_trail, "Operating Expenses"@), change, FULL_PERCENT as int)
}

/// The debt service under stress: it moves in proportion to the change of the
/// interest rate, a simplification that stands in for a new amortization.
pub open spec fn stressed_debt_service(base: UnderwritingResultView, change: Option<int>) -> int {
    adjusted(recovered(base.audit_trail, "Annual Debt Service"@), change, FULL_BASIS_POINTS as int)
}

/// The outcome of a stress test, as a function of the base result and the
/// changes asked for.
pub open spec fn stress_outcome(
    base: UnderwritingResultView,
    rent_change: Option<int>,
    expense_change: Option<int>,
    rate_change: Option<int>,
) -> StressTestOutcome {
    let noi = stressed_rent(base, rent_change) - stressed_expenses(base, expense_change);
    let debt_service = stressed_debt_service(base, rate_change);
    let dscr = if debt_service > 0 {
        Some(ratio_micros(noi, debt_service))
    } else {
        None
    };
    let cash_flow = noi - debt_service;
    StressTestOutcome {
        stressed_noi: noi,
        stressed_dscr: dscr,
        stressed_cash_flow: Some(cash_flow),
        noi_change: noi - base.noi,
        noi_change_pct: if base.noi != 0 {
            percent_micros(noi - base.noi, base.noi)
        } else {
            0
        },
        dscr_change: match (dscr, base.dscr) {
            (Some(stressed), Some(before)) => Some(stressed - before),
            _ => None,
        },
        cash_flow_change: match base.cash_flow_after_debt {
            Some(before) => Some(cash_flow - before),
            None => None,
        },
    }
}

/// The figures of a base result that a stress test reads are of a size that it
/// can work with: the three recovered inputs lie within `LIMIT`, NOI and cash
/// flow within four times that, the DSCR within what such figures can give.
pub open spec fn stress_ready(base: UnderwritingResultView) -> bool {
    &&& within(recovered(base.audit_trail, "Collected Rent"@), LIMIT as int)
    &&& within(recovered(base.audit_trail, "Operating Expenses"@), LIMIT as int)
    &&& within(recovered(base.audit_trail, "Annual Debt Service"@), LIMIT as int)
    &&& within(base.noi, 4 * LIMIT)
    &&& (base.dscr matches Some(d) ==> within(d, 4 * LIMIT * SCALE))
    &&& (base.cash_flow_after_debt matches Some(c) ==> within(c, 4 * LIMIT))
}

impl StressTestInput {
    /// The base result is `stress_ready` and each change asked for lies within
    /// `LIMIT`.
    pub open spec fn in_range(self) -> bool {
        &&& stress_ready(self.base_result@)
        &&& present_in_range(self.rent_adjustment)
        &&& present_in_range(self.expense_adjustment)
        &&& present_in_range(self.interest_rate_adjustment)
    }

    /// Tests `in_range`.
    pub fn is_in_range(&self) -> (r: bool)
        ensures
            r == self.in_range(),
    {
        let base = &self.base_result;
        let dscr_fits: bool = match base.dscr {
            Some(d) => -4 * LIMIT * SCALE <= d.micros && d.micros <= 4 * LIMIT * SCALE,
            None => true,
        };
        let cash_flow_fits: bool = match base.cash_flow_after_debt {
            Some(c) => -4 * LIMIT <= c.micros && c.micros <= 4 * LIMIT,
            None => true,
        };
        recover(&base.audit_trail, "Collected Rent").is_in_range() && recover(
            &base.audit_trail,
            "Operating Expenses",
        ).is_in_range() && recover(&base.audit_trail, "Annual Debt Service").is_in_range()
            && -4 * LIMIT <= base.noi.micros && base.noi.micros <= 4 * LIMIT && dscr_fits
            && cash_flow_fits && is_present_in_range(self.rent_adjustment)
            && is_present_in_range(self.expense_adjustment) && is_present_in_range(
            self.interest_rate_adjustment,
        )
    }
}

/// The named inputs of a longer trail are those of the shorter one followed by
/// those of the added step.
proof fn lemma_recorded_inputs_push(trail: Seq<CalculationStepView>, step: CalculationStepView)
    ensures
        recorded_inputs(trail.push(step)) == recorded_inputs(trail) + step.inputs,
{
    assert(trail.push(step).drop_last() =~= trail);
}

/// The value last recorded under a label, after one more value was recorded.
proof fn lemma_last_recorded_push(
    inputs: Seq<(Seq<char>, int)>,
    entry: (Seq<char>, int),
    label: Seq<char>,
)
    ensures
        last_recorded(inputs.push(entry), label) == if entry.0 == label {
            entry.1
        } else {
            last_recorded(inputs, label)
        },
{
    assert(inputs.push(entry).drop_last() =~= inputs);
}

/// Reads from an audit trail the value that was recorded last under `label`;
/// zero where the trail holds no such value.
pub fn recover(trail: &Vec<CalculationStep>, label: &str) -> (value: Decimal)
    ensures
        value.micros == recovered(steps_view(trail@), label@),
{
    let mut value = Decimal::zero();
    let mut i: usize = 0;
    while i < trail.len()
        invariant
            i <= trail.len(),
            value.micros == recovered(steps_view(trail@).take(i as int), label@),
        decreases trail.len() - i,
    {
        let step = &trail[i];
        let ghost before = recorded_inputs(steps_view(trail@).take(i as int));
        let mut j: usize = 0;
        while j < step.inputs.len()
            invariant
                j <= step.inputs.len(),
                value.micros == last_recorded(before + step@.inputs.take(j as int), label@),
            decreases step.inputs.len() - j,
        {
            let entry = &step.inputs[j];
            proof {
                let seen = before + step@.inputs.take(j as int);
                let entry_view = (entry.0@, entry.1.micros as int);
                assert(step@.inputs[j as int] == entry_view);
                assert(before + step@.inputs.take(j + 1) =~= seen.push(entry_view));
                lemma_last_recorded_push(seen, entry_view, label@);
            }
            if entry.0.as_str().eq(label) {
                value = entry.1;
            }
            j = j + 1;
        }
        i = i + 1;
        proof {
            let all = steps_view(trail@);
            assert(all.take(i as int) =~= all.take(i - 1).push(step@));
            lemma_recorded_inputs_push(all.take(i - 1), step@);
            assert(step@.inputs.take(step.inputs.len() as int) =~= step@.inputs);
        }
    }
    proof {
        assert(steps_view(trail@).take(trail.len() as int) =~= steps_view(trail@));
    }
    value
}

/// `value` changed by `change` parts in `full`.
fn adjust(value: Decimal, change: Option<Decimal>, full: i128) -> (r: Decimal)
    requires
        value.in_range(),
        present_in_range(change),
        full == FULL_PERCENT || full == FULL_BASIS_POINTS,
    ensures
        r.micros == adjusted(value.micros as int, figure(change), full as int),
        within(r.micros as int, 11_000_000_000_000_000_000_000_000_000),
{
    match change {
        Some(c) => {
            let factor: i128 = full + c.micros;
            proof {
                assert(within(value.micros * factor, 11_000_000_000_000_000_000_000_000_000 * full))
                    by (nonlinear_arith)
                    requires
                        within(value.micros as int, 1_000_000_000_000_000_000),
                        within(factor as int, 1_000_000_010_000_000_000),
                        full >= 100_000_000,
                ;
                lemma_floor_div_within(
                    value.micros * factor,
                    full as int,
                    11_000_000_000_000_000_000_000_000_000,
                );
            }
            Decimal { micros: div_floor(value.micros * factor, full) }
        },
        None => value,
    }
}

/// Applies a stress test to the result of an underwriting.
///
/// Collected rent, operating expenses and debt service of the base case are
/// read from the audit trail of the base result, under the labels that
/// `calculate_underwriting` records them with. The result is exactly
/// `stress_outcome` of the base result and the changes asked for.
pub fn apply_stress_test(input: StressTestInput) -> (result: StressTestResult)
    requires
        input.in_range(),
    ensures
        result@ == stress_outcome(
            input.base_result@,
            figure(input.rent_adjustment),
            figure(input.expense_adjustment),
            figure(input.interest_rate_adjustment),
        ),
{
    let base = &input.base_result;
    let collected_rent = adjust(
        recover(&base.audit_trail, "Collected Rent"),
        input.rent_adjustment,
        FULL_PERCENT,
    );
    let operating_expenses = adjust(
        recover(&base.audit_trail, "Operating Expenses"),
        input.expense_adjustment,
        FULL_PERCENT,
    );
    let debt_service = adjust(
        recover(&base.audit_trail, "Annual Debt Service"),
        input.interest_rate_adjustment,
        FULL_BASIS_POINTS,
    );

    let stressed_noi = Decimal { micros: collected_rent.micros - operating_expenses.micros };
    let stressed_dscr = if debt_service.micros > 0 {
        Some(ratio(stressed_noi, debt_service))
    } else {
        None
    };
    let cash_flow = Decimal { micros: stressed_noi.micros - debt_service.micros };

    let noi_change = Decimal { micros: stressed_noi.micros - base.noi.micros };
    let noi_change_pct = if base.noi.micros != 0 {
        percent(noi_change, base.noi)
    } else {
        Decimal::zero()
    };
    let dscr_change = match (stressed_dscr, base.dscr) {
        (Some(stressed), Some(before)) => Some(Decimal { micros: stressed.micros - before.micros }),
        _ => None,
    };
    let cash_flow_change = match base.cash_flow_after_debt {
        Some(before) => Some(Decimal { micros: cash_flow.micros - before.micros }),
        None => None,
    };

    StressTestResult {
        stressed_noi,
        stressed_dscr,
        stressed_cash_flow: Some(cash_flow),
        comparison: StressTestComparison {
            noi_change,
            noi_change_pct,
            dscr_change,
            cash_flow_change,
        },
    }
}

/// NOI is collected rent less operating expenses, exactly, and the audit trail
/// always opens with the step that derives it.
pub proof fn law_noi_comes_first(input: UnderwritingInput, sources: Sources)
    ensures
        underwriting_from(input, sources).noi == input.collected_rent.micros
            - input.operating_expenses.micros,
        underwriting_from(input, sources).audit_trail.len() >= 1,
        underwriting_from(input, sources).audit_trail[0] == noi_step(input, sources),
        underwriting_from(input, sources).audit_trail[0].result == underwriting_from(
            input,
            sources,
        ).noi,
{
}

/// Two results computed from the same input, read from the same facts, are the
/// same in every figure, in the order and content of the audit trail, and in the
/// warnings.
pub proof fn law_same_input_same_result(
    input: UnderwritingInput,
    sources: Sources,
    first: UnderwritingResult,
    second: UnderwritingResult,
)
    requires
        first@ == underwriting_from(input, sources),
        second@ == underwriting_from(input, sources),
    ensures
        first@ == second@,
{
}

/// The input with another debt service, all else unchanged.
pub open spec fn with_debt_service(input: UnderwritingInput, debt_service: Decimal)
    -> UnderwritingInput {
    UnderwritingInput { debt_service: Some(debt_service), ..input }
}

/// With all else fixed, a larger debt service leaves strictly less cash flow
/// after debt.
pub proof fn law_more_debt_less_cash_flow(input: UnderwritingInput, low: Decimal, high: Decimal)
    requires
        low.micros < high.micros,
    ensures
        cash_flow_of(with_debt_service(input, high))->0 < cash_flow_of(
            with_debt_service(input, low),
        )->0,
{
}

/// With all else fixed, a positive NOI and a positive debt service, a larger debt
/// service never gives a larger DSCR, and gives a strictly smaller one as soon
/// as the two exact quotients lie a millionth or more apart.
pub proof fn law_more_debt_less_coverage(input: UnderwritingInput, low: Decimal, high: Decimal)
    requires
        noi_of(input) > 0,
        0 < low.micros < high.micros,
    ensures
        dscr_of(with_debt_service(input, high))->0 <= dscr_of(with_debt_service(input, low))->0,
        noi_of(input) * SCALE * (high.micros - low.micros) >= low.micros * high.micros
            ==> dscr_of(with_debt_service(input, high))->0 < dscr_of(
            with_debt_service(input, low),
        )->0,
{
    let n = noi_of(input) * SCALE;
    let a = low.micros as int;
    let b = high.micros as int;
    assert(noi_of(with_debt_service(input, low)) == noi_of(input));
    assert(noi_of(with_debt_service(input, high)) == noi_of(input));
    assert(n > 0) by (nonlinear_arith)
        requires
            n == noi_of(input) * SCALE,
            noi_of(input) > 0,
            SCALE == 1_000_000,
    ;
    vstd::arithmetic::div_mod::lemma_div_is_ordered_by_denominator(n, a, b);
    if n * (b - a) >= a * b {
        let q = n / b;
        vstd::arithmetic::div_mod::lemma_fundamental_div_mod(n, b);
        vstd::arithmetic::div_mod::lemma_div_pos_is_pos(n, b);
        assert((q + 1) * a <= n) by (nonlinear_arith)
            requires
                n == b * q + (n % b),
                0 <= n % b,
                n * (b - a) >= a * b,
                0 < a < b,
                q >= 0,
                n > 0,
        {
            assert(q * b <= n);
            assert(q * b * a <= n * a);
            assert((q + 1) * a * b <= n * b);
        }
        vstd::arithmetic::div_mod::lemma_div_is_ordered((q + 1) * a, n, a);
        vstd::arithmetic::div_mod::lemma_div_multiples_vanish(q + 1, a);
        assert(a * (q + 1) == (q + 1) * a) by (nonlinear_arith);
    }
}

/// Without a debt service there is neither a DSCR nor a cash flow after debt,
/// and the warnings say that the DSCR could not be calculated.
pub proof fn law_no_debt_service_no_coverage(input: UnderwritingInput, sources: Sources)
    requires
        input.debt_service is None,
    ensures
        underwriting_from(input, sources).dscr is None,
        underwriting_from(input, sources).cash_flow_after_debt is None,
        underwriting_from(input, sources).warnings.contains(
            "Note: Debt service not provided - DSCR cannot be calculated"@,
        ),
{
    let note = "Note: Debt service not provided - DSCR cannot be calculated"@;
    let front = debt_warnings(noi_of(input), figure(input.debt_service)) + if_present(
        match cap_rate_of(input) {
            Some(rate) => cap_rate_warning(rate),
            None => None,
        },
    ) + if_present(
        match ltv_of(input) {
            Some(ratio) => ltv_warning(ratio),
            None => None,
        },
    );
    assert(missing_notes(input)[0] == note);
    assert(warnings_of(input)[front.len() as int] == note);
}

/// The labels under which the stress test looks for its inputs differ from one
/// another and from every other label that an audit trail carries.
proof fn lemma_labels_differ()
    ensures
        "Collected Rent"@ != "Operating Expenses"@,
        "Collected Rent"@ != "Annual Debt Service"@,
        "Operating Expenses"@ != "Annual Debt Service"@,
        "NOI"@ != "Collected Rent"@,
        "NOI"@ != "Operating Expenses"@,
        "NOI"@ != "Annual Debt Service"@,
        "Property Value"@ != "Collected Rent"@,
        "Property Value"@ != "Operating Expenses"@,
        "Property Value"@ != "Annual Debt Service"@,
        "Mortgage Balance"@ != "Collected Rent"@,
        "Mortgage Balance"@ != "Operating Expenses"@,
        "Mortgage Balance"@ != "Annual Debt Service"@,
        "Gross Scheduled Rent"@ != "Collected Rent"@,
        "Gross Scheduled Rent"@ != "Operating Expenses"@,
        "Gross Scheduled Rent"@ != "Annual Debt Service"@,
{
    reveal_strlit("Collected Rent");
    reveal_strlit("Operating Expenses");
    reveal_strlit("Annual Debt Service");
    reveal_strlit("NOI");
    reveal_strlit("Property Value");
    reveal_strlit("Mortgage Balance");
    reveal_strlit("Gross Scheduled Rent");
    assert("Collected Rent"@.len() == 14);
    assert("Operating Expenses"@.len() == 18);
    assert("Annual Debt Service"@.len() == 19);
    assert("NOI"@.len() == 3);
    assert("Property Value"@.len() == 14);
    assert("Mortgage Balance"@.len() == 16);
    assert("Gross Scheduled Rent"@.len() == 20);
    assert("Property Value"@[0] != "Collected Rent"@[0]);
}

/// What a stress test reads from an audit trail: collected rent, operating
/// expenses and debt service.
pub open spec fn readings(trail: Seq<CalculationStepView>) -> (int, int, int) {
    (
        recovered(trail, "Collected Rent"@),
        recovered(trail, "Operating Expenses"@),
        recovered(trail, "Annual Debt Service"@),
    )
}

/// The value held under a label after a step with two inputs was added.
proof fn lemma_recovered_after_step(
    trail: Seq<CalculationStepView>,
    step: CalculationStepView,
    label: Seq<char>,
)
    requires
        step.inputs.len() == 2,
    ensures
        recovered(trail.push(step), label) == if step.inputs[1].0 == label {
            step.inputs[1].1
        } else if step.inputs[0].0 == label {
            step.inputs[0].1
        } else {
            recovered(trail, label)
        },
{
    lemma_recorded_inputs_push(trail, step);
    let base = recorded_inputs(trail);
    assert(base + step.inputs =~= base.push(step.inputs[0]).push(step.inputs[1]));
    lemma_last_recorded_push(base.push(step.inputs[0]), step.inputs[1], label);
    lemma_last_recorded_push(base, step.inputs[0], label);
}

/// A step that records neither rent, expenses nor debt service leaves the
/// readings as they were.
proof fn lemma_step_keeps_readings(trail: Seq<CalculationStepView>, step: CalculationStepView)
    requires
        step.inputs.len() == 2,
        step.inputs[0].0 == "NOI"@ || step.inputs[0].0 == "Property Value"@ || step.inputs[0].0
            == "Mortgage Balance"@,
        step.inputs[1].0 == "Property Value"@ || step.inputs[1].0 == "Gross Scheduled Rent"@,
    ensures
        readings(trail.push(step)) == readings(trail),
{
    lemma_labels_differ();
    lemma_recovered_after_step(trail, step, "Collected Rent"@);
    lemma_recovered_after_step(trail, step, "Operating Expenses"@);
    lemma_recovered_after_step(trail, step, "Annual Debt Service"@);
}

/// A step that records NOI and the debt service changes the reading of the debt
/// service alone.
proof fn lemma_debt_step_readings(trail: Seq<CalculationStepView>, step: CalculationStepView)
    requires
        step.inputs.len() == 2,
        step.inputs[0].0 == "NOI"@,
        step.inputs[1].0 == "Annual Debt Service"@,
    ensures
        readings(trail.push(step)) == (readings(trail).0, readings(trail).1, step.inputs[1].1),
{
    lemma_labels_differ();
    lemma_recovered_after_step(trail, step, "Collected Rent"@);
    lemma_recovered_after_step(trail, step, "Operating Expenses"@);
    lemma_recovered_after_step(trail, step, "Annual Debt Service"@);
}

/// The stress test reads back from the audit trail of an underwriting exactly
/// the collected rent, the operating expenses and the debt service that went
/// into it (zero for a debt service that was not given).
pub proof fn law_trail_keeps_inputs(input: UnderwritingInput, sources: Sources)
    ensures
        readings(audit_trail_from(input, sources)) == (
            input.collected_rent.micros as int,
            input.operating_expenses.micros as int,
            match input.debt_service {
                Some(ds) => ds.micros as int,
                None => 0,
            },
        ),
{
    lemma_labels_differ();
    let noi = noi_of(input);
    let none = Seq::<CalculationStepView>::empty();
    assert(recorded_inputs(none) =~= Seq::empty());
    let t0 = seq![noi_step(input, sources)];
    assert(t0 =~= none.push(noi_step(input, sources)));
    lemma_recovered_after_step(none, noi_step(input, sources), "Collected Rent"@);
    lemma_recovered_after_step(none, noi_step(input, sources), "Operating Expenses"@);
    lemma_recovered_after_step(none, noi_step(input, sources), "Annual Debt Service"@);
    let t1 = t0 + debt_steps(noi, figure(input.debt_service), sources);
    match input.debt_service {
        Some(ds) => {
            let d = ds.micros as int;
            assert(t1 =~= t0.push(dscr_step(noi, d, sources)).push(
                cash_flow_step(noi, d, sources),
            ));
            lemma_debt_step_readings(t0, dscr_step(noi, d, sources));
            lemma_debt_step_readings(
                t0.push(dscr_step(noi, d, sources)),
                cash_flow_step(noi, d, sources),
            );
        },
        None => {
            assert(t1 =~= t0);
        },
    }
    let cap = match positive_value(input) {
        Some(v) => Some(cap_rate_step(noi, v, sources)),
        None => None,
    };
    let t2 = t1 + if_present(cap);
    match cap {
        Some(step) => {
            assert(t2 =~= t1.push(step));
            lemma_step_keeps_readings(t1, step);
        },
        None => {
            assert(t2 =~= t1);
        },
    }
    let ltv = match (input.mortgage_balance, positive_value(input)) {
        (Some(m), Some(v)) => Some(ltv_step(m.micros as int, v, sources)),
        _ => None,
    };
    let t3 = t2 + if_present(ltv);
    match ltv {
        Some(step) => {
            assert(t3 =~= t2.push(step));
            lemma_step_keeps_readings(t2, step);
        },
        None => {
            assert(t3 =~= t2);
        },
    }
    let grm = match (input.gross_scheduled_rent, input.property_value) {
        (Some(g), Some(v)) => if g.micros > 0 {
            Some(grm_step(v.micros as int, g.micros as int, sources))
        } else {
            None
        },
        _ => None,
    };
    let t4 = t3 + if_present(grm);
    match grm {
        Some(step) => {
            assert(t4 =~= t3.push(step));
            lemma_step_keeps_readings(t3, step);
        },
        None => {
            assert(t4 =~= t3);
        },
    }
    assert(audit_trail_from(input, sources) == t4);
}

/// The result of an underwriting of figures within `LIMIT` can be put under
/// stress: it meets what `apply_stress_test` asks of its base result.
pub proof fn law_result_is_stress_ready(input: UnderwritingInput, sources: Sources)
    requires
        input.in_range(),
    ensures
        stress_ready(underwriting_from(input, sources)),
{
    law_trail_keeps_inputs(input, sources);
    match input.debt_service {
        Some(ds) => {
            if ds.micros > 0 {
                let n = noi_of(input);
                assert(within(n * SCALE, 4 * LIMIT * SCALE * ds.micros)) by (nonlinear_arith)
                    requires
                        within(n, 2 * LIMIT),
                        ds.micros >= 1,
                        SCALE == 1_000_000,
                        LIMIT == 1_000_000_000_000_000_000,
                ;
                lemma_floor_div_within(n * SCALE, ds.micros as int, 4 * LIMIT * SCALE);
            }
        },
        None => {},
    }
}

/// A stress test that changes nothing gives back the figures of the base case:
/// the same NOI, no change of NOI, and, where a positive debt service was given,
/// the same DSCR and the same cash flow after debt.
pub proof fn law_no_change_no_stress(input: UnderwritingInput, sources: Sources)
    ensures
        ({
            let base = underwriting_from(input, sources);
            let outcome = stress_outcome(base, None, None, None);
            &&& outcome.stressed_noi == base.noi
            &&& outcome.noi_change == 0
            &&& outcome.noi_change_pct == 0
            &&& (input.debt_service matches Some(ds) && ds.micros > 0 ==> {
                &&& outcome.stressed_dscr == base.dscr
                &&& outcome.dscr_change == Some(0int)
                &&& outcome.stressed_cash_flow == base.cash_flow_after_debt
                &&& outcome.cash_flow_change == Some(0int)
            })
        }),
{
    law_trail_keeps_inputs(input, sources);
    let noi = noi_of(input);
    if noi != 0 {
        assert(0int * 100 * SCALE == 0);
        if noi > 0 {
            assert(0int / noi == 0) by (nonlinear_arith)
                requires
                    noi > 0,
            ;
        } else {
            assert(0int / (-noi) == 0) by (nonlinear_arith)
                requires
                    noi < 0,
            ;
        }
    }
}

} // verus!
