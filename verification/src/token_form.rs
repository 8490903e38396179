//! The token creation form's bookkeeping: which fields are in error, how
//! many are, when an error is shown, and when the form can be submitted.
use vstd::prelude::*;

verus! {

/// How many fields are in error.
pub open spec fn count_errors(errors: Seq<bool>) -> nat
    decreases errors.len(),
{
    if errors.len() == 0 {
        0
    } else {
        count_errors(errors.drop_last()) + if errors.last() {
            1nat
        } else {
            0nat
        }
    }
}

proof fn lemma_count_update(errors: Seq<bool>, i: int, b: bool)
    requires
        0 <= i < errors.len(),
    ensures
        count_errors(errors.update(i, b)) + (if errors[i] {
            1nat
        } else {
            0nat
        }) == count_errors(errors) + (if b {
            1nat
        } else {
            0nat
        }),
    decreases errors.len(),
{
    if i < errors.len() - 1 {
        lemma_count_update(errors.drop_last(), i, b);
        assert(errors.update(i, b).drop_last() =~= errors.drop_last().update(i, b));
    } else {
        assert(errors.update(i, b).drop_last() =~= errors.drop_last());
    }
}

proof fn lemma_count_bounded(errors: Seq<bool>)
    ensures
        count_errors(errors) <= errors.len(),
    decreases errors.len(),
{
    if errors.len() > 0 {
        lemma_count_bounded(errors.drop_last());
    }
}

/// The state of the form's fields: for each field whether its value is in
/// error and whether its error is shown, and the count of fields in error
/// that the submit button reads.
#[derive(Clone, Debug)]
pub struct TokenFormValidity {
    pub errors: Vec<bool>,
    pub show_errors: Vec<bool>,
    pub invalid_cnt: u32,
}

impl TokenFormValidity {
    /// The count matches the fields and there is one show flag per field.
    pub open spec fn counted(&self) -> bool {
        &&& self.invalid_cnt == count_errors(self.errors@)
        &&& self.show_errors@.len() == self.errors@.len()
    }

    /// A form with no field yet.
    pub fn new() -> (f: Self)
        ensures
            f.errors@.len() == 0,
            f.counted(),
    {
        TokenFormValidity { errors: Vec::new(), show_errors: Vec::new(), invalid_cnt: 0 }
    }

    /// Adds a field; a field without an initial value starts in error
    /// (not shown yet) and is counted. Returns the field's index.
    pub fn register_field(&mut self, has_initial_value: bool) -> (i: usize)
        requires
            !has_initial_value ==> old(self).invalid_cnt < u32::MAX,
        ensures
            i == old(self).errors@.len(),
            final(self).errors@ == old(self).errors@.push(!has_initial_value),
            final(self).show_errors@ == old(self).show_errors@.push(false),
            final(self).invalid_cnt == old(self).invalid_cnt + (if has_initial_value {
                0int
            } else {
                1int
            }),
            old(self).counted() ==> final(self).counted(),
    {
        let i = self.errors.len();
        let ghost before = self.errors@;
        self.errors.push(!has_initial_value);
        self.show_errors.push(false);
        if !has_initial_value {
            self.invalid_cnt = self.invalid_cnt + 1;
        }
        assert(self.errors@.drop_last() =~= before);
        i
    }

    /// A new value in field `i`: a valid value clears the field's error
    /// (uncounting it); an invalid one shows the error and, if the field was
    /// not in error yet, counts it.
    pub fn field_input(&mut self, i: usize, valid: bool)
        requires
            i < old(self).errors@.len(),
            i < old(self).show_errors@.len(),
            valid && old(self).errors@[i as int] ==> old(self).invalid_cnt > 0,
            !valid && !old(self).errors@[i as int] ==> old(self).invalid_cnt < u32::MAX,
        ensures
            final(self).errors@ == old(self).errors@.update(i as int, !valid),
            final(self).show_errors@ == (if valid {
                old(self).show_errors@
            } else {
                old(self).show_errors@.update(i as int, true)
            }),
            final(self).invalid_cnt == old(self).invalid_cnt + (if !valid && !old(
                self,
            ).errors@[i as int] {
                1int
            } else if valid && old(self).errors@[i as int] {
                -1int
            } else {
                0int
            }),
            old(self).counted() ==> final(self).counted(),
    {
        let ghost before = self.errors@;
        if valid {
            if self.errors[i] {
                self.invalid_cnt = self.invalid_cnt - 1;
            }
            self.errors.set(i, false);
        } else {
            self.show_errors.set(i, true);
            if !self.errors[i] {
                self.errors.set(i, true);
                self.invalid_cnt = self.invalid_cnt + 1;
            } else {
                assert(self.errors@ =~= before.update(i as int, true));
            }
        }
        proof {
            lemma_count_update(before, i as int, !valid);
        }
    }

    /// Whether field `i` shows its error.
    pub fn shows_error(&self, i: usize) -> (r: bool)
        requires
            i < self.errors@.len(),
            i < self.show_errors@.len(),
        ensures
            r == (self.show_errors@[i as int] && self.errors@[i as int]),
    {
        self.show_errors[i] && self.errors[i]
    }

    /// Forgets the count when the form is reset.
    pub fn reset(&mut self)
        ensures
            final(self).invalid_cnt == 0,
            final(self).errors@ == old(self).errors@,
            final(self).show_errors@ == old(self).show_errors@,
    {
        self.invalid_cnt = 0;
    }
}

/// While the count matches the fields, an input in a field in error can
/// always uncount it, and the count never exceeds the number of fields.
pub proof fn lemma_counted_form_is_sound(f: TokenFormValidity, i: int)
    requires
        f.counted(),
        0 <= i < f.errors@.len(),
        f.errors@[i],
    ensures
        f.invalid_cnt > 0,
        f.invalid_cnt <= f.errors@.len(),
{
    lemma_count_bounded(f.errors@);
    lemma_count_update(f.errors@, i, false);
}

/// Whether the create button is disabled: while creating, without a signed
/// in user, while the logo, name, description or symbol is missing, or
/// while any field is in error.
pub fn create_disabled(
    creating: bool,
    signed_in: bool,
    has_logo: bool,
    has_name: bool,
    has_description: bool,
    has_symbol: bool,
    invalid_cnt: u32,
) -> (r: bool)
    ensures
        r == (creating || !signed_in || !has_logo || !has_name || !has_description || !has_symbol
            || invalid_cnt != 0),
{
    creating || !signed_in || !has_logo || !has_name || !has_description || !has_symbol
        || invalid_cnt != 0
}

} // verus!
