use vstd::prelude::*;

verus! {

/// The component's reactive text state: one slot per input field.
///
/// Every slot starts empty when the form is mounted and is overwritten,
/// never validated, by the matching field handler; any string is accepted.
#[derive(Clone)]
pub struct FormState {
    pub username: String,
    pub rating: String,
    pub review: String,
}

/// An immutable snapshot of the three field values, taken once per submit
/// and handed to both submission channels.
#[derive(Clone)]
pub struct SubmissionPayload {
    pub username: String,
    pub rating: String,
    pub review: String,
}

impl FormState {
    /// A freshly mounted form: every field empty.
    pub fn new() -> (s: FormState)
        ensures
            s.username@ == Seq::<char>::empty(),
            s.rating@ == Seq::<char>::empty(),
            s.review@ == Seq::<char>::empty(),
    {
        FormState { username: String::new(), rating: String::new(), review: String::new() }
    }

    /// Commit of the username field alone: store the value read from its
    /// input, leaving the other two slots untouched.
    pub fn set_username(&mut self, value: String)
        ensures
            final(self).username@ == value@,
            final(self).rating@ == old(self).rating@,
            final(self).review@ == old(self).review@,
    {
        self.username = value;
    }

    /// Commit of the rating field alone: store the value read from its
    /// input, leaving the other two slots untouched.
    pub fn set_rating(&mut self, value: String)
        ensures
            final(self).rating@ == value@,
            final(self).username@ == old(self).username@,
            final(self).review@ == old(self).review@,
    {
        self.rating = value;
    }

    /// Commit of the review field alone: store the value read from its
    /// input, leaving the other two slots untouched.
    pub fn set_review(&mut self, value: String)
        ensures
            final(self).review@ == value@,
            final(self).username@ == old(self).username@,
            final(self).rating@ == old(self).rating@,
    {
        self.review = value;
    }

    /// A snapshot of the current field values.
    pub fn snapshot(&self) -> (p: SubmissionPayload)
        ensures
            p.username@ == self.username@,
            p.rating@ == self.rating@,
            p.review@ == self.review@,
    {
        SubmissionPayload {
            username: self.username.clone(),
            rating: self.rating.clone(),
            review: self.review.clone(),
        }
    }

    /// Full submit: overwrite every slot with the values just re-read from
    /// the inputs — stale per-field state never survives a submit — and
    /// return the snapshot that both submission channels encode.
    pub fn submit(&mut self, username: String, rating: String, review: String) -> (p: SubmissionPayload)
        ensures
            final(self).username@ == username@,
            final(self).rating@ == rating@,
            final(self).review@ == review@,
            p.username@ == username@,
            p.rating@ == rating@,
            p.review@ == review@,
    {
        self.username = username;
        self.rating = rating;
        self.review = review;
        self.snapshot()
    }
}

} // verus!
