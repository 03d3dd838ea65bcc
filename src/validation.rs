//! Validation responses: the two wire shapes, how one is recognised, and the
//! canonical result they both map to.

use vstd::prelude::*;
use crate::json::{Json, JsonValue, member, members_view, has_member};
use crate::decode::{
    DecodeError, opt_text, opt_texts, text_of, flag_of, number_of, texts_of, object_of,
    text_member, flag_member, number_member, texts_member, object_member,
};

verus! {

/// The canonical outcome of validating an entry.
#[derive(Debug, Clone)]
pub struct ValidationResult {
    pub valid: bool,
    /// Clarity in millionths, always within `0..=1_000_000`.
    pub clarity_score: u32,
    pub intent_detected: String,
    pub suggestions: Option<Vec<String>>,
    pub warnings: Option<Vec<String>>,
}

pub struct ValidationView {
    pub valid: bool,
    pub clarity_score: nat,
    pub intent_detected: Seq<char>,
    pub suggestions: Option<Seq<Seq<char>>>,
    pub warnings: Option<Seq<Seq<char>>>,
}

impl View for ValidationResult {
    type V = ValidationView;

    open spec fn view(&self) -> ValidationView {
        ValidationView {
            valid: self.valid,
            clarity_score: self.clarity_score as nat,
            intent_detected: self.intent_detected@,
            suggestions: opt_texts(self.suggestions),
            warnings: opt_texts(self.warnings),
        }
    }
}

/// Full clarity, in millionths.
pub const CLARITY_FULL: u32 = 1_000_000;

/// Clarity assumed for an invalid entry without warnings, in millionths.
pub const CLARITY_UNWARNED: u32 = 700_000;

/// Clarity assumed for an invalid entry with warnings, in millionths.
pub const CLARITY_WARNED: u32 = 400_000;

/// The nested generation: a symbolic block, an LLM block and an overall decision.
pub struct NestedValidation {
    pub issues: Option<Seq<Seq<char>>>,
    pub paraphrase: Option<Seq<char>>,
    pub ambiguities: Option<Seq<Seq<char>>>,
    pub overall_decision: Option<Seq<char>>,
}

/// The flat generation: validity, score, intent and two lists side by side.
pub struct FlatValidation {
    pub valid: bool,
    pub clarity: Option<int>,
    pub intent: Option<Seq<char>>,
    pub suggestions: Option<Seq<Seq<char>>>,
    pub warnings: Option<Seq<Seq<char>>>,
}

pub enum ValidationShape {
    Nested(NestedValidation),
    Flat(FlatValidation),
}

/// The flat shape is recognised by its `valid` member.
pub open spec fn flat_validation(fs: Seq<(Seq<char>, Json)>) -> Option<ValidationShape> {
    let valid = flag_of(member(fs, "valid"@));
    let clarity = number_of(member(fs, "clarityScore"@));
    let intent = text_of(member(fs, "intentDetected"@));
    let suggestions = texts_of(member(fs, "suggestions"@));
    let warnings = texts_of(member(fs, "warnings"@));
    if valid is Ok && valid->Ok_0 is Some && clarity is Ok && intent is Ok && suggestions is Ok
        && warnings is Ok {
        Some(
            ValidationShape::Flat(
                FlatValidation {
                    valid: valid->Ok_0->Some_0,
                    clarity: clarity->Ok_0,
                    intent: intent->Ok_0,
                    suggestions: suggestions->Ok_0,
                    warnings: warnings->Ok_0,
                },
            ),
        )
    } else {
        None
    }
}

/// The issues of the symbolic block, if that block is well formed: it must
/// carry a boolean `valid`, and its issues, if any, are strings.
pub open spec fn symbolic_issues(fs: Seq<(Seq<char>, Json)>) -> Result<
    Option<Seq<Seq<char>>>,
    (),
> {
    match object_of(member(fs, "symbolic_validation"@)) {
        Ok(None) => Ok(None),
        Ok(Some(sym)) => match flag_of(member(sym, "valid"@)) {
            Ok(Some(_)) => texts_of(member(sym, "issues"@)),
            _ => Err(()),
        },
        Err(_) => Err(()),
    }
}

/// Whether the inner validation object of the LLM block has the declared
/// type for each of its members that is present.
pub open spec fn llm_inner_ok(v: Seq<(Seq<char>, Json)>) -> bool {
    text_of(member(v, "paraphrase"@)) is Ok && flag_of(member(v, "intent_match"@)) is Ok
        && texts_of(member(v, "ambiguities"@)) is Ok && text_of(member(v, "decision"@)) is Ok
        && text_of(member(v, "reasoning"@)) is Ok
}

/// The inner validation object of the LLM block, if the block is well formed:
/// a string status, if any, and a well-formed inner object, if any.
pub open spec fn llm_inner(fs: Seq<(Seq<char>, Json)>) -> Result<
    Option<Seq<(Seq<char>, Json)>>,
    (),
> {
    match object_of(member(fs, "llm_validation"@)) {
        Ok(None) => Ok(None),
        Ok(Some(llm)) => if text_of(member(llm, "status"@)) is Ok {
            match object_of(member(llm, "validation"@)) {
                Ok(Some(v)) => if llm_inner_ok(v) {
                    Ok(Some(v))
                } else {
                    Err(())
                },
                other => other,
            }
        } else {
            Err(())
        },
        Err(_) => Err(()),
    }
}

/// The nested shape is recognised by any of its three top-level members.
pub open spec fn is_nested_validation(fs: Seq<(Seq<char>, Json)>) -> bool {
    member(fs, "symbolic_validation"@) is Some || member(fs, "llm_validation"@) is Some || member(
        fs,
        "overall_decision"@,
    ) is Some
}

pub open spec fn nested_validation(fs: Seq<(Seq<char>, Json)>) -> Option<ValidationShape> {
    let issues = symbolic_issues(fs);
    let inner = llm_inner(fs);
    let decision = text_of(member(fs, "overall_decision"@));
    let paraphrase = match inner {
        Ok(Some(v)) => text_of(member(v, "paraphrase"@)),
        _ => Ok(None),
    };
    let ambiguities = match inner {
        Ok(Some(v)) => texts_of(member(v, "ambiguities"@)),
        _ => Ok(None),
    };
    if is_nested_validation(fs) && issues is Ok && inner is Ok && decision is Ok && paraphrase is Ok
        && ambiguities is Ok {
        Some(
            ValidationShape::Nested(
                NestedValidation {
                    issues: issues->Ok_0,
                    paraphrase: paraphrase->Ok_0,
                    ambiguities: ambiguities->Ok_0,
                    overall_decision: decision->Ok_0,
                },
            ),
        )
    } else {
        None
    }
}

/// The shape of a validation response, or `None` when it matches neither:
/// a non-object, an object with the members of neither shape, or a member of
/// either shape with the wrong type.
pub open spec fn validation_shape(body: Json) -> Option<ValidationShape> {
    match body {
        Json::Object(fs) => if member(fs, "valid"@) is Some {
            flat_validation(fs)
        } else {
            nested_validation(fs)
        },
        _ => None,
    }
}

/// The remote intent when it reports a non-empty one, else the declared one.
pub open spec fn intent_fallback(remote: Option<Seq<char>>, declared: Seq<char>) -> Seq<char> {
    match remote {
        Some(r) => if r.len() > 0 {
            r
        } else {
            declared
        },
        None => declared,
    }
}

pub open spec fn has_warnings(w: Option<Seq<Seq<char>>>) -> bool {
    w is Some && w->Some_0.len() > 0
}

/// The documented approximation used when the remote reports no score.
pub open spec fn heuristic_clarity(valid: bool, warnings: Option<Seq<Seq<char>>>) -> nat {
    if valid {
        CLARITY_FULL as nat
    } else if has_warnings(warnings) {
        CLARITY_WARNED as nat
    } else {
        CLARITY_UNWARNED as nat
    }
}

/// A reported score, clamped into `0..=1_000_000`.
pub open spec fn clamp_clarity(c: int) -> nat {
    if c < 0 {
        0
    } else if c > CLARITY_FULL {
        CLARITY_FULL as nat
    } else {
        c as nat
    }
}

/// The canonical result of a recognised validation response.
pub open spec fn canonical_validation(shape: ValidationShape, declared: Seq<char>) -> ValidationView {
    match shape {
        ValidationShape::Nested(n) => {
            let valid = n.overall_decision == Some("VALID"@);
            let warnings = if has_warnings(n.issues) {
                n.issues
            } else {
                None
            };
            ValidationView {
                valid,
                clarity_score: heuristic_clarity(valid, warnings),
                intent_detected: intent_fallback(n.paraphrase, declared),
                suggestions: n.ambiguities,
                warnings,
            }
        },
        ValidationShape::Flat(f) => ValidationView {
            valid: f.valid,
            clarity_score: match f.clarity {
                Some(c) => clamp_clarity(c),
                None => heuristic_clarity(f.valid, f.warnings),
            },
            intent_detected: intent_fallback(f.intent, declared),
            suggestions: f.suggestions,
            warnings: f.warnings,
        },
    }
}

fn pick_intent(remote: Option<String>, declared: &str) -> (r: String)
    ensures
        r@ == intent_fallback(opt_text(remote), declared@),
{
    match remote {
        Some(s) => {
            if s.unicode_len() > 0 {
                s
            } else {
                String::from_str(declared)
            }
        },
        None => String::from_str(declared),
    }
}

fn heuristic_score(valid: bool, warnings: &Option<Vec<String>>) -> (r: u32)
    ensures
        r as nat == heuristic_clarity(valid, opt_texts(*warnings)),
{
    if valid {
        CLARITY_FULL
    } else {
        match warnings {
            Some(w) => {
                if w.len() > 0 {
                    CLARITY_WARNED
                } else {
                    CLARITY_UNWARNED
                }
            },
            None => CLARITY_UNWARNED,
        }
    }
}

fn clamp_score(c: i128) -> (r: u32)
    ensures
        r as nat == clamp_clarity(c as int),
{
    if c < 0 {
        0
    } else if c > CLARITY_FULL as i128 {
        CLARITY_FULL
    } else {
        c as u32
    }
}

fn parse_flat(fields: &Vec<(String, JsonValue)>, declared: &str) -> (r: Result<
    ValidationResult,
    DecodeError,
>)
    ensures
        match flat_validation(members_view(fields@)) {
            None => r is Err,
            Some(s) => r is Ok && r->Ok_0@ == canonical_validation(s, declared@),
        },
{
    let valid = match flag_member(fields, "valid") {
        Ok(Some(b)) => b,
        _ => {
            return Err(DecodeError);
        },
    };
    let clarity = number_member(fields, "clarityScore")?;
    let intent = text_member(fields, "intentDetected")?;
    let suggestions = texts_member(fields, "suggestions")?;
    let warnings = texts_member(fields, "warnings")?;
    let clarity_score = match clarity {
        Some(c) => clamp_score(c),
        None => heuristic_score(valid, &warnings),
    };
    Ok(
        ValidationResult {
            valid,
            clarity_score,
            intent_detected: pick_intent(intent, declared),
            suggestions,
            warnings,
        },
    )
}

fn parse_nested(fields: &Vec<(String, JsonValue)>, declared: &str) -> (r: Result<
    ValidationResult,
    DecodeError,
>)
    ensures
        match nested_validation(members_view(fields@)) {
            None => r is Err,
            Some(s) => r is Ok && r->Ok_0@ == canonical_validation(s, declared@),
        },
{
    if !(has_member(fields, "symbolic_validation") || has_member(fields, "llm_validation")
        || has_member(fields, "overall_decision")) {
        return Err(DecodeError);
    }
    let issues = match object_member(fields, "symbolic_validation")? {
        Some(sym) => {
            match flag_member(sym, "valid")? {
                Some(_) => {},
                None => {
                    return Err(DecodeError);
                },
            }
            texts_member(sym, "issues")?
        },
        None => None,
    };
    let inner = match object_member(fields, "llm_validation")? {
        Some(llm) => {
            let _ = text_member(llm, "status")?;
            let v = object_member(llm, "validation")?;
            match v {
                Some(w) => {
                    let _ = flag_member(w, "intent_match")?;
                    let _ = text_member(w, "decision")?;
                    let _ = text_member(w, "reasoning")?;
                },
                None => {},
            }
            v
        },
        None => None,
    };
    let decision = text_member(fields, "overall_decision")?;
    let (paraphrase, ambiguities) = match inner {
        Some(v) => (text_member(v, "paraphrase")?, texts_member(v, "ambiguities")?),
        None => (None, None),
    };
    let valid = match &decision {
        Some(d) => crate::json::text_eq(d.as_str(), "VALID"),
        None => false,
    };
    let warnings = match issues {
        Some(l) => {
            if l.len() > 0 {
                Some(l)
            } else {
                None
            }
        },
        None => None,
    };
    let clarity_score = heuristic_score(valid, &warnings);
    Ok(
        ValidationResult {
            valid,
            clarity_score,
            intent_detected: pick_intent(paraphrase, declared),
            suggestions: ambiguities,
            warnings,
        },
    )
}

/// Recognises the shape of a validation response and maps it to the
/// canonical result; `declared_intent` stands in when the remote reports no
/// intent. A body of neither shape is a decode error.
pub fn parse_validation_response(body: &JsonValue, declared_intent: &str) -> (r: Result<
    ValidationResult,
    DecodeError,
>)
    ensures
        match validation_shape(body@) {
            None => r is Err,
            Some(s) => r is Ok && r->Ok_0@ == canonical_validation(s, declared_intent@),
        },
        r is Ok ==> r->Ok_0.clarity_score <= CLARITY_FULL,
{
    match body {
        JsonValue::Object(fields) => {
            proof {
                crate::json::lemma_object_view(*fields);
            }
            let flat = match crate::json::get_member(fields, "valid") {
                Some(_) => true,
                None => false,
            };
            if flat {
                parse_flat(fields, declared_intent)
            } else {
                parse_nested(fields, declared_intent)
            }
        },
        _ => Err(DecodeError),
    }
}

} // verus!

verus! {

/// Validity and detected intent do not depend on the generation of the
/// response: a nested and a flat response that report the same verdict and
/// the same intent give the same `valid` and `intent_detected`.
pub proof fn lemma_shape_independent(n: NestedValidation, f: FlatValidation, declared: Seq<char>)
    requires
        (n.overall_decision == Some("VALID"@)) == f.valid,
        n.paraphrase == f.intent,
    ensures
        canonical_validation(ValidationShape::Nested(n), declared).valid == canonical_validation(
            ValidationShape::Flat(f),
            declared,
        ).valid,
        canonical_validation(ValidationShape::Nested(n), declared).intent_detected
            == canonical_validation(ValidationShape::Flat(f), declared).intent_detected,
{
}

/// The clarity score of every canonical result lies within `0..=1_000_000`
/// millionths, whatever score the remote reported.
pub proof fn lemma_clarity_in_range(shape: ValidationShape, declared: Seq<char>)
    ensures
        canonical_validation(shape, declared).clarity_score <= CLARITY_FULL,
{
}

/// The detected intent is never empty when the declared intent is not.
pub proof fn lemma_intent_never_empty(shape: ValidationShape, declared: Seq<char>)
    requires
        declared.len() > 0,
    ensures
        canonical_validation(shape, declared).intent_detected.len() > 0,
{
}

} // verus!
