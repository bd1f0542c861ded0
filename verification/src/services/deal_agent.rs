//! The risk recommendation engine: rules that turn the facts of a deal and, where
//! there is one, its underwriting result into recommendations, each with a
//! severity.
//!
//! Four checks run in a fixed order: missing data, underwriting metrics,
//! leverage, and fact quality. Their recommendations are listed one after the
//! other; none is dropped or merged.

use vstd::prelude::*;
use vstd::string::StringExecFns;
use crate::decimal::{two_places, unsigned_two_places, magnitude, Decimal};
use crate::models::fact::Fact;
use crate::services::underwriting::{UnderwritingResult, UnderwritingResultView};
use crate::text::{
    concat2,
    concat3,
    decimal_digits,
    decimal_string,
    if_present,
    owned,
    text_view,
};

verus! {

/// How much a recommendation matters.
#[derive(Debug, Clone, Copy, PartialEq, Eq, Structural)]
pub enum Severity {
    Info,
    Warning,
    Critical,
}

/// One recommendation on a deal.
#[derive(Debug, Clone)]
pub struct AgentRecommendation {
    pub severity: Severity,
    pub category: String,
    pub message: String,
    pub recommended_action: Option<String>,
    pub details: Option<String>,
}

/// An `AgentRecommendation` as mathematics.
pub struct Recommendation {
    pub severity: Severity,
    pub category: Seq<char>,
    pub message: Seq<char>,
    pub recommended_action: Option<Seq<char>>,
    pub details: Option<Seq<char>>,
}

impl View for AgentRecommendation {
    type V = Recommendation;

    open spec fn view(&self) -> Recommendation {
        Recommendation {
            severity: self.severity,
            category: self.category@,
            message: self.message@,
            recommended_action: text_view(self.recommended_action),
            details: text_view(self.details),
        }
    }
}

/// A list of recommendations as mathematics.
pub open spec fn recommendations_view(v: Seq<AgentRecommendation>) -> Seq<Recommendation> {
    v.map_values(|r: AgentRecommendation| r@)
}

/// Some fact of the list is of the type that `name` names.
pub open spec fn has_fact_of_type(facts: Seq<Fact>, name: Seq<char>) -> bool {
    exists|i: int| 0 <= i < facts.len() && (#[trigger] facts[i]).fact_type@ == name
}

/// A recommendation on missing data.
pub open spec fn missing_data(
    severity: Severity,
    message: Seq<char>,
    action: Seq<char>,
    details: Seq<char>,
) -> Recommendation {
    Recommendation {
        severity,
        category: "Missing Data"@,
        message,
        recommended_action: Some(action),
        details: Some(details),
    }
}

/// What the lack of a fact of collected rent draws.
pub open spec fn missing_rent() -> Recommendation {
    missing_data(
        Severity::Critical,
        "No rental income data found"@,
        "Upload rent roll or P&L statement showing collected rent"@,
        "Collected rent is essential for calculating NOI and evaluating property performance"@,
    )
}

/// What the lack of a fact of operating expenses draws.
pub open spec fn missing_expenses() -> Recommendation {
    missing_data(
        Severity::Critical,
        "No operating expenses data found"@,
        "Upload P&L statement with operating expenses breakdown"@,
        "Operating expenses are required to calculate NOI and understand property profitability"@,
    )
}

/// What the lack of any fact of a mortgage balance or a debt service draws.
pub open spec fn missing_mortgage() -> Recommendation {
    missing_data(
        Severity::Warning,
        "No mortgage or debt service information found"@,
        "Upload mortgage statement to enable DSCR calculation"@,
        "Debt service coverage ratio (DSCR) cannot be calculated without mortgage information"@,
    )
}

/// What the lack of a fact of the property value draws.
pub open spec fn missing_property_value() -> Recommendation {
    missing_data(
        Severity::Info,
        "No property value found"@,
        "Upload tax assessment or appraisal document"@,
        "Property value enables calculation of Cap Rate and LTV"@,
    )
}

/// What the lack of a fact of the unit count draws.
pub open spec fn missing_unit_count() -> Recommendation {
    missing_data(
        Severity::Info,
        "No unit count information found"@,
        "Ensure rent roll includes total unit count"@,
        "Unit count helps assess property size and per-unit economics"@,
    )
}

/// What the lack of a fact of the occupancy rate draws.
pub open spec fn missing_occupancy() -> Recommendation {
    missing_data(
        Severity::Info,
        "No occupancy rate found"@,
        "Include occupancy percentage in rent roll"@,
        "Occupancy rate is important for understanding property performance and risk"@,
    )
}

/// `r` where `missing` holds, nothing otherwise.
pub open spec fn when(missing: bool, r: Recommendation) -> Seq<Recommendation> {
    if missing {
        seq![r]
    } else {
        Seq::empty()
    }
}

/// The missing-data check: one recommendation for each kind of fact that a deal
/// needs and the list lacks. Collected rent and operating expenses are critical;
/// a mortgage balance or a debt service, either of which will do, is a warning;
/// property value, unit count and occupancy rate are for information.
pub open spec fn missing_data_recommendations(facts: Seq<Fact>) -> Seq<Recommendation> {
    when(!has_fact_of_type(facts, "collected_rent"@), missing_rent()) + when(
        !has_fact_of_type(facts, "operating_expenses"@),
        missing_expenses(),
    ) + when(
        !has_fact_of_type(facts, "mortgage_balance"@) && !has_fact_of_type(
            facts,
            "debt_service"@,
        ),
        missing_mortgage(),
    ) + when(!has_fact_of_type(facts, "property_value"@), missing_property_value()) + when(
        !has_fact_of_type(facts, "unit_count"@),
        missing_unit_count(),
    ) + when(!has_fact_of_type(facts, "occupancy_rate"@), missing_occupancy())
}

/// What a DSCR draws: critical below 1.0, a warning from there up to but not
/// including 1.25, praise from 1.5 on, and nothing in between.
pub open spec fn dscr_recommendation(dscr: int) -> Option<Recommendation> {
    if dscr < 1_000_000 {
        Some(
            Recommendation {
                severity: Severity::Critical,
                category: "Debt Coverage"@,
                message: "DSCR of "@ + two_places(dscr)
                    + " is below 1.0 - property cannot cover debt service"@,
                recommended_action: Some(
                    "Consider higher coupon rate, lower leverage, or refinancing options"@,
                ),
                details: Some(
                    "DSCR below 1.0 means the property generates insufficient income to cover debt payments"@,
                ),
            },
        )
    } else if dscr < 1_250_000 {
        Some(
            Recommendation {
                severity: Severity::Warning,
                category: "Debt Coverage"@,
                message: "DSCR of "@ + two_places(dscr) + " is below recommended 1.25 threshold"@,
                recommended_action: Some(
                    "Consider increasing down payment or negotiating better loan terms"@,
                ),
                details: Some(
                    "Most lenders require DSCR of 1.25 or higher for comfortable debt service coverage"@,
                ),
            },
        )
    } else if dscr >= 1_500_000 {
        Some(
            Recommendation {
                severity: Severity::Info,
                category: "Debt Coverage"@,
                message: "Strong DSCR of "@ + two_places(dscr) + " provides good safety margin"@,
                recommended_action: None,
                details: Some(
                    "Property has healthy cash flow to cover debt service with room for unexpected expenses"@,
                ),
            },
        )
    } else {
        None
    }
}

/// What a negative NOI draws.
pub open spec fn noi_recommendation(noi: int) -> Option<Recommendation> {
    if noi < 0 {
        Some(
            Recommendation {
                severity: Severity::Critical,
                category: "Operating Performance"@,
                message: "Negative NOI of $"@ + unsigned_two_places(magnitude(noi))
                    + " indicates operating loss"@,
                recommended_action: Some(
                    "Review operating expenses for reduction opportunities or increase rents"@,
                ),
                details: Some(
                    "Property is not generating positive operating income after expenses"@,
                ),
            },
        )
    } else {
        None
    }
}

/// What a cash flow after debt draws: critical where it is negative, a warning
/// where it is below 5,000.
pub open spec fn cash_flow_recommendation(cash_flow: int) -> Option<Recommendation> {
    if cash_flow < 0 {
        Some(
            Recommendation {
                severity: Severity::Critical,
                category: "Cash Flow"@,
                message: "Negative cash flow of $"@ + unsigned_two_places(magnitude(cash_flow))
                    + " per year"@,
                recommended_action: Some(
                    "Property requires capital injection. Consider debt restructuring or operational improvements"@,
                ),
                details: Some(
                    "Negative cash flow means owner must contribute additional capital to cover shortfall"@,
                ),
            },
        )
    } else if cash_flow < 5_000_000_000 {
        Some(
            Recommendation {
                severity: Severity::Warning,
                category: "Cash Flow"@,
                message: "Low cash flow provides minimal safety margin"@,
                recommended_action: Some(
                    "Consider stress testing for rent decreases or expense increases"@,
                ),
                details: Some(
                    "Low cash flow leaves little buffer for unexpected expenses or vacancies"@,
                ),
            },
        )
    } else {
        None
    }
}

/// What a cap rate draws: a warning below 3% and another above 10%.
pub open spec fn cap_rate_recommendation(cap_rate: int) -> Option<Recommendation> {
    if cap_rate < 3_000_000 {
        Some(
            Recommendation {
                severity: Severity::Warning,
                category: "Returns"@,
                message: "Low cap rate of "@ + two_places(cap_rate)
                    + "% suggests limited income potential"@,
                recommended_action: Some(
                    "Verify property value is accurate and consider if appreciation potential justifies low yield"@,
                ),
                details: Some(
                    "Cap rates below 3% are typically seen in premium locations with strong appreciation potential"@,
                ),
            },
        )
    } else if cap_rate > 10_000_000 {
        Some(
            Recommendation {
                severity: Severity::Warning,
                category: "Returns"@,
                message: "High cap rate of "@ + two_places(cap_rate)
                    + "% may indicate higher risk"@,
                recommended_action: Some(
                    "Investigate property condition, location, and tenant quality"@,
                ),
                details: Some(
                    "Cap rates above 10% often reflect higher risk properties or markets"@,
                ),
            },
        )
    } else {
        None
    }
}

/// What an LTV draws: a warning above 85%, a note above 80%, another below 60%.
pub open spec fn ltv_recommendation(ltv: int) -> Option<Recommendation> {
    if ltv > 85_000_000 {
        Some(
            Recommendation {
                severity: Severity::Warning,
                category: "Leverage"@,
                message: "LTV of "@ + two_places(ltv) + "% exceeds 85% threshold"@,
                recommended_action: Some(
                    "Consider increasing equity contribution to reduce leverage risk"@,
                ),
                details: Some(
                    "High LTV limits equity buffer and increases sensitivity to property value declines"@,
                ),
            },
        )
    } else if ltv > 80_000_000 {
        Some(
            Recommendation {
                severity: Severity::Info,
                category: "Leverage"@,
                message: "LTV of "@ + two_places(ltv) + "% is above 80%"@,
                recommended_action: Some("Monitor property value and maintain cash reserves"@),
                details: Some("LTV above 80% may require PMI or higher interest rates"@),
            },
        )
    } else if ltv < 60_000_000 {
        Some(
            Recommendation {
                severity: Severity::Info,
                category: "Leverage"@,
                message: "Conservative LTV of "@ + two_places(ltv) + "%"@,
                recommended_action: Some(
                    "Consider if higher leverage could improve returns without excessive risk"@,
                ),
                details: Some(
                    "Low LTV provides strong equity position but may limit returns on equity"@,
                ),
            },
        )
    } else {
        None
    }
}

/// What a figure that may be absent draws under a rule.
pub open spec fn for_figure(
    figure: Option<int>,
    rule: spec_fn(int) -> Option<Recommendation>,
) -> Seq<Recommendation> {
    match figure {
        Some(x) => if_present(rule(x)),
        None => Seq::empty(),
    }
}

/// The metric check: DSCR, NOI, cash flow after debt and cap rate, in that
/// order.
pub open spec fn metric_recommendations(uw: UnderwritingResultView) -> Seq<Recommendation> {
    for_figure(uw.dscr, |x: int| dscr_recommendation(x)) + if_present(noi_recommendation(uw.noi))
        + for_figure(uw.cash_flow_after_debt, |x: int| cash_flow_recommendation(x)) + for_figure(
        uw.cap_rate,
        |x: int| cap_rate_recommendation(x),
    )
}

/// The leverage check.
pub open spec fn leverage_recommendations(uw: UnderwritingResultView) -> Seq<Recommendation> {
    for_figure(uw.ltv, |x: int| ltv_recommendation(x))
}

/// A fact that nobody has locked yet.
pub open spec fn is_unlocked(f: Fact) -> bool {
    !f.locked
}

/// A fact whose confidence is given and below 0.7.
pub open spec fn is_low_confidence(f: Fact) -> bool {
    f.confidence_score matches Some(c) && c.micros < 700_000
}

/// The number of facts awaiting approval.
pub open spec fn unlocked_count(facts: Seq<Fact>) -> nat {
    facts.filter(|f: Fact| is_unlocked(f)).len()
}

/// The number of facts of low confidence.
pub open spec fn low_confidence_count(facts: Seq<Fact>) -> nat {
    facts.filter(|f: Fact| is_low_confidence(f)).len()
}

/// What `count` facts that await approval draw.
pub open spec fn pending_approval(count: nat) -> Recommendation {
    Recommendation {
        severity: Severity::Warning,
        category: "Data Quality"@,
        message: decimal_digits(count) + " facts pending approval"@,
        recommended_action: Some("Review and approve all facts before finalizing underwriting"@),
        details: Some("Unlocked facts may change, affecting underwriting calculations"@),
    }
}

/// What `count` facts of low confidence draw.
pub open spec fn low_confidence(count: nat) -> Recommendation {
    Recommendation {
        severity: Severity::Info,
        category: "Data Quality"@,
        message: decimal_digits(count) + " facts have low confidence scores"@,
        recommended_action: Some("Manually verify facts with confidence below 70%"@),
        details: Some("Low confidence scores may indicate OCR errors or ambiguous source data"@),
    }
}

/// The fact-quality check: a warning where facts await approval, a note where
/// facts are of low confidence, each with the number of such facts.
pub open spec fn fact_quality_recommendations(facts: Seq<Fact>) -> Seq<Recommendation> {
    when(unlocked_count(facts) > 0, pending_approval(unlocked_count(facts))) + when(
        low_confidence_count(facts) > 0,
        low_confidence(low_confidence_count(facts)),
    )
}

/// All recommendations on a deal: those of the missing-data check, then, where
/// there is an underwriting result, those of the metric check and of the
/// leverage check, then those of the fact-quality check.
pub open spec fn deal_recommendations(
    facts: Seq<Fact>,
    underwriting: Option<UnderwritingResultView>,
) -> Seq<Recommendation> {
    missing_data_recommendations(facts) + (match underwriting {
        Some(uw) => metric_recommendations(uw) + leverage_recommendations(uw),
        None => Seq::empty(),
    }) + fact_quality_recommendations(facts)
}

/// Builds a recommendation.
fn recommendation(
    severity: Severity,
    category: &str,
    message: String,
    action: Option<&str>,
    details: &str,
) -> (r: AgentRecommendation)
    ensures
        r@ == (Recommendation {
            severity,
            category: category@,
            message: message@,
            recommended_action: match action {
                Some(a) => Some(a@),
                None => None,
            },
            details: Some(details@),
        }),
{
    AgentRecommendation {
        severity,
        category: owned(category),
        message,
        recommended_action: match action {
            Some(a) => Some(owned(a)),
            None => None,
        },
        details: Some(owned(details)),
    }
}

/// Appends a recommendation where a condition holds.
fn push_when(list: &mut Vec<AgentRecommendation>, condition: bool, r: AgentRecommendation)
    ensures
        recommendations_view(final(list)@) == recommendations_view(old(list)@) + when(
            condition,
            r@,
        ),
{
    if condition {
        list.push(r);
    }
    proof {
        assert(recommendations_view(list@) =~= recommendations_view(old(list)@) + when(
            condition,
            r@,
        ));
    }
}

/// Appends a recommendation that may be absent.
fn push_present(list: &mut Vec<AgentRecommendation>, r: Option<AgentRecommendation>)
    ensures
        recommendations_view(final(list)@) == recommendations_view(old(list)@) + if_present(
            match r {
                Some(r) => Some(r@),
                None => None,
            },
        ),
{
    match r {
        Some(r) => {
            list.push(r);
            proof {
                assert(recommendations_view(list@) =~= recommendations_view(old(list)@) + seq![
                    r@,
                ]);
            }
        },
        None => {
            proof {
                assert(recommendations_view(list@) =~= recommendations_view(old(list)@)
                    + Seq::<Recommendation>::empty());
            }
        },
    }
}

/// Moves the recommendations of `more` to the end of `list`.
fn push_all(list: &mut Vec<AgentRecommendation>, more: Vec<AgentRecommendation>)
    ensures
        recommendations_view(final(list)@) == recommendations_view(old(list)@)
            + recommendations_view(more@),
{
    let mut more = more;
    let ghost moved = more@;
    list.append(&mut more);
    proof {
        assert(recommendations_view(list@) =~= recommendations_view(old(list)@)
            + recommendations_view(moved));
    }
}

/// Tells whether some fact of the list is of the type that `name` names.
pub fn has_fact_type(facts: &[Fact], name: &str) -> (r: bool)
    ensures
        r == has_fact_of_type(facts@, name@),
{
    let mut i: usize = 0;
    while i < facts.len()
        invariant
            i <= facts.len(),
            forall|k: int| 0 <= k < i ==> (#[trigger] facts@[k]).fact_type@ != name@,
        decreases facts.len() - i,
    {
        if facts[i].fact_type.as_str().eq(name) {
            return true;
        }
        i = i + 1;
    }
    false
}

/// Counts the facts that nobody has locked yet.
pub fn count_unlocked(facts: &[Fact]) -> (n: usize)
    ensures
        n == unlocked_count(facts@),
{
    let mut n: usize = 0;
    let mut i: usize = 0;
    while i < facts.len()
        invariant
            i <= facts.len(),
            n <= i,
            n == unlocked_count(facts@.take(i as int)),
        decreases facts.len() - i,
    {
        proof {
            let pre = facts@.take(i as int);
            assert(facts@.take(i + 1) =~= pre.push(facts@[i as int]));
            assert(pre.push(facts@[i as int]).drop_last() =~= pre);
            reveal_with_fuel(Seq::filter, 2);
        }
        if !facts[i].locked {
            n = n + 1;
        }
        i = i + 1;
    }
    proof {
        assert(facts@.take(facts.len() as int) =~= facts@);
    }
    n
}

/// Counts the facts whose confidence is given and below 0.7.
pub fn count_low_confidence(facts: &[Fact]) -> (n: usize)
    ensures
        n == low_confidence_count(facts@),
{
    let mut n: usize = 0;
    let mut i: usize = 0;
    while i < facts.len()
        invariant
            i <= facts.len(),
            n <= i,
            n == low_confidence_count(facts@.take(i as int)),
        decreases facts.len() - i,
    {
        proof {
            let pre = facts@.take(i as int);
            assert(facts@.take(i + 1) =~= pre.push(facts@[i as int]));
            assert(pre.push(facts@[i as int]).drop_last() =~= pre);
            reveal_with_fuel(Seq::filter, 2);
        }
        let low: bool = match facts[i].confidence_score {
            Some(c) => c.micros < 700_000,
            None => false,
        };
        if low {
            n = n + 1;
        }
        i = i + 1;
    }
    proof {
        assert(facts@.take(facts.len() as int) =~= facts@);
    }
    n
}

/// The missing-data check.
pub fn check_missing_documents(facts: &[Fact]) -> (recommendations: Vec<AgentRecommendation>)
    ensures
        recommendations_view(recommendations@) == missing_data_recommendations(facts@),
{
    let mut recommendations: Vec<AgentRecommendation> = Vec::new();
    assert(recommendations_view(recommendations@) =~= Seq::<Recommendation>::empty());

    let has_collected_rent = has_fact_type(facts, "collected_rent");
    let has_operating_expenses = has_fact_type(facts, "operating_expenses");
    let has_mortgage = has_fact_type(facts, "mortgage_balance") || has_fact_type(
        facts,
        "debt_service",
    );
    let has_property_value = has_fact_type(facts, "property_value");
    let has_unit_count = has_fact_type(facts, "unit_count");
    let has_occupancy = has_fact_type(facts, "occupancy_rate");

    push_when(
        &mut recommendations,
        !has_collected_rent,
        recommendation(
            Severity::Critical,
            "Missing Data",
            owned("No rental income data found"),
            Some("Upload rent roll or P&L statement showing collected rent"),
            "Collected rent is essential for calculating NOI and evaluating property performance",
        ),
    );
    push_when(
        &mut recommendations,
        !has_operating_expenses,
        recommendation(
            Severity::Critical,
            "Missing Data",
            owned("No operating expenses data found"),
            Some("Upload P&L statement with operating expenses breakdown"),
            "Operating expenses are required to calculate NOI and understand property profitability",
        ),
    );
    push_when(
        &mut recommendations,
        !has_mortgage,
        recommendation(
            Severity::Warning,
            "Missing Data",
            owned("No mortgage or debt service information found"),
            Some("Upload mortgage statement to enable DSCR calculation"),
            "Debt service coverage ratio (DSCR) cannot be calculated without mortgage information",
        ),
    );
    push_when(
        &mut recommendations,
        !has_property_value,
        recommendation(
            Severity::Info,
            "Missing Data",
            owned("No property value found"),
            Some("Upload tax assessment or appraisal document"),
            "Property value enables calculation of Cap Rate and LTV",
        ),
    );
    push_when(
        &mut recommendations,
        !has_unit_count,
        recommendation(
            Severity::Info,
            "Missing Data",
            owned("No unit count information found"),
            Some("Ensure rent roll includes total unit count"),
            "Unit count helps assess property size and per-unit economics",
        ),
    );
    push_when(
        &mut recommendations,
        !has_occupancy,
        recommendation(
            Severity::Info,
            "Missing Data",
            owned("No occupancy rate found"),
            Some("Include occupancy percentage in rent roll"),
            "Occupancy rate is important for understanding property performance and risk",
        ),
    );
    proof {
        assert(recommendations_view(recommendations@) =~= missing_data_recommendations(facts@));
    }
    recommendations
}

/// What a DSCR draws.
fn assess_dscr(dscr: Decimal) -> (r: Option<AgentRecommendation>)
    ensures
        (match r {
            Some(r) => Some(r@),
            None => None,
        }) == dscr_recommendation(dscr.micros as int),
{
    if dscr.micros < 1_000_000 {
        Some(
            recommendation(
                Severity::Critical,
                "Debt Coverage",
                concat3(
                    "DSCR of ",
                    dscr.format_2dp().as_str(),
                    " is below 1.0 - property cannot cover debt service",
                ),
                Some("Consider higher coupon rate, lower leverage, or refinancing options"),
                "DSCR below 1.0 means the property generates insufficient income to cover debt payments",
            ),
        )
    } else if dscr.micros < 1_250_000 {
        Some(
            recommendation(
                Severity::Warning,
                "Debt Coverage",
                concat3(
                    "DSCR of ",
                    dscr.format_2dp().as_str(),
                    " is below recommended 1.25 threshold",
                ),
                Some("Consider increasing down payment or negotiating better loan terms"),
                "Most lenders require DSCR of 1.25 or higher for comfortable debt service coverage",
            ),
        )
    } else if dscr.micros >= 1_500_000 {
        Some(
            recommendation(
                Severity::Info,
                "Debt Coverage",
                concat3(
                    "Strong DSCR of ",
                    dscr.format_2dp().as_str(),
                    " provides good safety margin",
                ),
                None,
                "Property has healthy cash flow to cover debt service with room for unexpected expenses",
            ),
        )
    } else {
        None
    }
}

/// What an NOI draws.
fn assess_noi(noi: Decimal) -> (r: Option<AgentRecommendation>)
    ensures
        (match r {
            Some(r) => Some(r@),
            None => None,
        }) == noi_recommendation(noi.micros as int),
{
    if noi.micros < 0 {
        Some(
            recommendation(
                Severity::Critical,
                "Operating Performance",
                concat3(
                    "Negative NOI of $",
                    noi.format_magnitude_2dp().as_str(),
                    " indicates operating loss",
                ),
                Some("Review operating expenses for reduction opportunities or increase rents"),
                "Property is not generating positive operating income after expenses",
            ),
        )
    } else {
        None
    }
}

/// What a cash flow after debt draws.
fn assess_cash_flow(cash_flow: Decimal) -> (r: Option<AgentRecommendation>)
    ensures
        (match r {
            Some(r) => Some(r@),
            None => None,
        }) == cash_flow_recommendation(cash_flow.micros as int),
{
    if cash_flow.micros < 0 {
        Some(
            recommendation(
                Severity::Critical,
                "Cash Flow",
                concat3(
                    "Negative cash flow of $",
                    cash_flow.format_magnitude_2dp().as_str(),
                    " per year",
                ),
                Some(
                    "Property requires capital injection. Consider debt restructuring or operational improvements",
                ),
                "Negative cash flow means owner must contribute additional capital to cover shortfall",
            ),
        )
    } else if cash_flow.micros < 5_000_000_000 {
        Some(
            recommendation(
                Severity::Warning,
                "Cash Flow",
                owned("Low cash flow provides minimal safety margin"),
                Some("Consider stress testing for rent decreases or expense increases"),
                "Low cash flow leaves little buffer for unexpected expenses or vacancies",
            ),
        )
    } else {
        None
    }
}

/// What a cap rate draws.
fn assess_cap_rate(cap_rate: Decimal) -> (r: Option<AgentRecommendation>)
    ensures
        (match r {
            Some(r) => Some(r@),
            None => None,
        }) == cap_rate_recommendation(cap_rate.micros as int),
{
    if cap_rate.micros < 3_000_000 {
        Some(
            recommendation(
                Severity::Warning,
                "Returns",
                concat3(
                    "Low cap rate of ",
                    cap_rate.format_2dp().as_str(),
                    "% suggests limited income potential",
                ),
                Some(
                    "Verify property value is accurate and consider if appreciation potential justifies low yield",
                ),
                "Cap rates below 3% are typically seen in premium locations with strong appreciation potential",
            ),
        )
    } else if cap_rate.micros > 10_000_000 {
        Some(
            recommendation(
                Severity::Warning,
                "Returns",
                concat3(
                    "High cap rate of ",
                    cap_rate.format_2dp().as_str(),
                    "% may indicate higher risk",
                ),
                Some("Investigate property condition, location, and tenant quality"),
                "Cap rates above 10% often reflect higher risk properties or markets",
            ),
        )
    } else {
        None
    }
}

/// What an LTV draws.
fn assess_ltv(ltv: Decimal) -> (r: Option<AgentRecommendation>)
    ensures
        (match r {
            Some(r) => Some(r@),
            None => None,
        }) == ltv_recommendation(ltv.micros as int),
{
    if ltv.micros > 85_000_000 {
        Some(
            recommendation(
                Severity::Warning,
                "Leverage",
                concat3("LTV of ", ltv.format_2dp().as_str(), "% exceeds 85% threshold"),
                Some("Consider increasing equity contribution to reduce leverage risk"),
                "High LTV limits equity buffer and increases sensitivity to property value declines",
            ),
        )
    } else if ltv.micros > 80_000_000 {
        Some(
            recommendation(
                Severity::Info,
                "Leverage",
                concat3("LTV of ", ltv.format_2dp().as_str(), "% is above 80%"),
                Some("Monitor property value and maintain cash reserves"),
                "LTV above 80% may require PMI or higher interest rates",
            ),
        )
    } else if ltv.micros < 60_000_000 {
        Some(
            recommendation(
                Severity::Info,
                "Leverage",
                concat3("Conservative LTV of ", ltv.format_2dp().as_str(), "%"),
                Some("Consider if higher leverage could improve returns without excessive risk"),
                "Low LTV provides strong equity position but may limit returns on equity",
            ),
        )
    } else {
        None
    }
}

/// The metric check.
pub fn analyze_underwriting_metrics(uw: &UnderwritingResult) -> (recommendations: Vec<
    AgentRecommendation,
>)
    ensures
        recommendations_view(recommendations@) == metric_recommendations(uw@),
{
    let mut recommendations: Vec<AgentRecommendation> = Vec::new();
    assert(recommendations_view(recommendations@) =~= Seq::<Recommendation>::empty());

    if let Some(dscr) = uw.dscr {
        push_present(&mut recommendations, assess_dscr(dscr));
    }
    let ghost after_dscr = recommendations_view(recommendations@);
    assert(after_dscr =~= for_figure(uw@.dscr, |x: int| dscr_recommendation(x)));

    push_present(&mut recommendations, assess_noi(uw.noi));

    let ghost after_noi = recommendations_view(recommendations@);
    if let Some(cash_flow) = uw.cash_flow_after_debt {
        push_present(&mut recommendations, assess_cash_flow(cash_flow));
    }
    let ghost after_cash_flow = recommendations_view(recommendations@);
    assert(after_cash_flow =~= after_noi + for_figure(
        uw@.cash_flow_after_debt,
        |x: int| cash_flow_recommendation(x),
    ));

    if let Some(cap_rate) = uw.cap_rate {
        push_present(&mut recommendations, assess_cap_rate(cap_rate));
    }
    assert(recommendations_view(recommendations@) =~= after_cash_flow + for_figure(
        uw@.cap_rate,
        |x: int| cap_rate_recommendation(x),
    ));
    recommendations
}

/// The leverage check.
pub fn analyze_leverage_ratios(uw: &UnderwritingResult) -> (recommendations: Vec<
    AgentRecommendation,
>)
    ensures
        recommendations_view(recommendations@) == leverage_recommendations(uw@),
{
    let mut recommendations: Vec<AgentRecommendation> = Vec::new();
    assert(recommendations_view(recommendations@) =~= Seq::<Recommendation>::empty());
    if let Some(ltv) = uw.ltv {
        push_present(&mut recommendations, assess_ltv(ltv));
    }
    assert(recommendations_view(recommendations@) =~= for_figure(
        uw@.ltv,
        |x: int| ltv_recommendation(x),
    ));
    recommendations
}

/// The fact-quality check.
pub fn check_fact_quality(facts: &[Fact]) -> (recommendations: Vec<AgentRecommendation>)
    ensures
        recommendations_view(recommendations@) == fact_quality_recommendations(facts@),
{
    let mut recommendations: Vec<AgentRecommendation> = Vec::new();
    assert(recommendations_view(recommendations@) =~= Seq::<Recommendation>::empty());

    let unlocked = count_unlocked(facts);
    push_when(
        &mut recommendations,
        unlocked > 0,
        recommendation(
            Severity::Warning,
            "Data Quality",
            concat2(decimal_string(unlocked as u128).as_str(), " facts pending approval"),
            Some("Review and approve all facts before finalizing underwriting"),
            "Unlocked facts may change, affecting underwriting calculations",
        ),
    );

    let low = count_low_confidence(facts);
    push_when(
        &mut recommendations,
        low > 0,
        recommendation(
            Severity::Info,
            "Data Quality",
            concat2(decimal_string(low as u128).as_str(), " facts have low confidence scores"),
            Some("Manually verify facts with confidence below 70%"),
            "Low confidence scores may indicate OCR errors or ambiguous source data",
        ),
    );
    proof {
        assert(recommendations_view(recommendations@) =~= fact_quality_recommendations(facts@));
    }
    recommendations
}

/// Analyzes a deal: runs the four checks and lists what they recommend.
pub fn analyze_deal(facts: &[Fact], underwriting: Option<&UnderwritingResult>) -> (recommendations:
    Vec<AgentRecommendation>)
    ensures
        recommendations_view(recommendations@) == deal_recommendations(
            facts@,
            match underwriting {
                Some(uw) => Some(uw@),
                None => None,
            },
        ),
{
    let mut recommendations = check_missing_documents(facts);
    let ghost first = recommendations_view(recommendations@);
    if let Some(uw) = underwriting {
        push_all(&mut recommendations, analyze_underwriting_metrics(uw));
        push_all(&mut recommendations, analyze_leverage_ratios(uw));
        proof {
            assert(recommendations_view(recommendations@) =~= first + (metric_recommendations(uw@)
                + leverage_recommendations(uw@)));
        }
    } else {
        proof {
            assert(recommendations_view(recommendations@) =~= first
                + Seq::<Recommendation>::empty());
        }
    }
    push_all(&mut recommendations, check_fact_quality(facts));
    recommendations
}

/// A list without a fact of collected rent always draws a critical
/// recommendation on missing data, whatever else the deal holds.
pub proof fn law_missing_rent_is_critical(
    facts: Seq<Fact>,
    underwriting: Option<UnderwritingResultView>,
)
    requires
        !has_fact_of_type(facts, "collected_rent"@),
    ensures
        exists|i: int|
            0 <= i < deal_recommendations(facts, underwriting).len() && (
            #[trigger] deal_recommendations(facts, underwriting)[i]).severity
                == Severity::Critical && deal_recommendations(facts, underwriting)[i].category
                == "Missing Data"@,
{
    let all = deal_recommendations(facts, underwriting);
    assert(missing_data_recommendations(facts)[0] == missing_rent());
    assert(all[0] == missing_rent());
}

} // verus!
