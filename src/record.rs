use vstd::prelude::*;

verus! {

/// One product's assessment data, every field plain text.
#[derive(Debug)]
pub struct Data {
    /// Regulatory filing identifier.
    pub notification_number: String,
    /// The product's display name; the filter key.
    pub product_name: String,
    /// Name of the filing organisation.
    pub notifier_name: String,
    /// Claimed functional benefit.
    pub functionality_to_display: String,
    /// Overall evaluation verdict.
    pub assessment: String,
    /// Narrative summary of the evidence.
    pub general_review_of_evidence: String,
}

/// `q` occurs in `s` as a contiguous run of characters.
pub open spec fn contains_seq(s: Seq<char>, q: Seq<char>) -> bool {
    exists|i: int| 0 <= i && i + q.len() <= s.len() && #[trigger] s.subrange(i, i + q.len()) == q
}

/// The record whose fields are all empty: the one shown when nothing is selected.
pub open spec fn is_empty_record(d: Data) -> bool {
    &&& d.notification_number@.len() == 0
    &&& d.product_name@.len() == 0
    &&& d.notifier_name@.len() == 0
    &&& d.functionality_to_display@.len() == 0
    &&& d.assessment@.len() == 0
    &&& d.general_review_of_evidence@.len() == 0
}

impl Data {
    /// The empty record.
    pub fn new() -> (r: Data)
        ensures
            is_empty_record(r),
    {
        Data {
            notification_number: String::new(),
            product_name: String::new(),
            notifier_name: String::new(),
            functionality_to_display: String::new(),
            assessment: String::new(),
            general_review_of_evidence: String::new(),
        }
    }
}

impl Clone for Data {
    fn clone(&self) -> (r: Data)
        ensures
            r == *self,
    {
        Data {
            notification_number: self.notification_number.clone(),
            product_name: self.product_name.clone(),
            notifier_name: self.notifier_name.clone(),
            functionality_to_display: self.functionality_to_display.clone(),
            assessment: self.assessment.clone(),
            general_review_of_evidence: self.general_review_of_evidence.clone(),
        }
    }
}

impl PartialEq for Data {
    fn eq(&self, o: &Data) -> (r: bool) {
        self.notification_number == o.notification_number
            && self.product_name == o.product_name
            && self.notifier_name == o.notifier_name
            && self.functionality_to_display == o.functionality_to_display
            && self.assessment == o.assessment
            && self.general_review_of_evidence == o.general_review_of_evidence
    }
}

impl vstd::std_specs::cmp::PartialEqSpecImpl for Data {
    open spec fn obeys_eq_spec() -> bool {
        true
    }

    open spec fn eq_spec(&self, o: &Data) -> bool {
        &&& self.notification_number@ == o.notification_number@
        &&& self.product_name@ == o.product_name@
        &&& self.notifier_name@ == o.notifier_name@
        &&& self.functionality_to_display@ == o.functionality_to_display@
        &&& self.assessment@ == o.assessment@
        &&& self.general_review_of_evidence@ == o.general_review_of_evidence@
    }
}

/// Relies on `str::contains` with a `&str` pattern: true exactly when the
/// pattern occurs in the text as a contiguous sub-slice.
#[verifier::external_body]
pub(crate) fn text_contains(text: &str, pattern: &str) -> (r: bool)
    ensures
        r == contains_seq(text@, pattern@),
{
    text.contains(pattern)
}

} // verus!
