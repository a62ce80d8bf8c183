use vstd::prelude::*;

verus! {

// Update and removal requests. Each names the principal on whose authority
// it acts; whether that principal may act is decided where the request is
// applied.

pub struct UUser<'a> {
    pub old_username_or_id: &'a str,
    pub new_email: &'a str,
    pub new_password: &'a str,
    pub new_username: &'a str,
    pub new_total_payed: i32,
    pub new_total_claimed: i32,
    pub new_total_unclaimed: i32,
    pub editor: &'a str,
}

/// An edit of a question. The client sends the current value of each field
/// it leaves alone; an empty `test_inputs` or `test_outputs` keeps the stored
/// fixtures, and a `daredevil` of zero stands for none.
pub struct UQuestion<'a> {
    pub editor: &'a str,
    pub rival_id: &'a str,
    pub old_question_title: &'a str,
    pub question_title: &'a str,
    pub question_body: &'a str,
    pub deadline: &'a str,
    pub question_status: i32,
    pub daredevil: i32,
    pub prize_pool: i32,
    pub category: &'a str,
    pub test_inputs: &'a str,
    pub test_outputs: &'a str,
}

pub struct UWallets<'a> {
    pub editor: &'a str,
    pub username_or_id: &'a str,
    pub new_sol_addr: &'a str,
}

pub struct RUsers<'a> {
    pub remover: &'a str,
    pub username_or_id: &'a str,
}

pub struct RQuestions<'a> {
    pub remover: &'a str,
    pub rival_id: &'a str,
    pub question_title: &'a str,
}

impl<'a> UUser<'a> {
    /// Whether the request names an editor to authorize it.
    pub fn has_principal(&self) -> (r: bool)
        ensures
            r == (self.editor@.len() > 0),
    {
        !self.editor.is_empty()
    }
}

impl<'a> UQuestion<'a> {
    /// Whether the request names an editor to authorize it.
    pub fn has_principal(&self) -> (r: bool)
        ensures
            r == (self.editor@.len() > 0),
    {
        !self.editor.is_empty()
    }

    /// Whether the stored test inputs are to be replaced; empty keeps them.
    pub fn replaces_test_inputs(&self) -> (r: bool)
        ensures
            r == (self.test_inputs@.len() > 0),
    {
        !self.test_inputs.is_empty()
    }

    /// Whether the stored test outputs are to be replaced; empty keeps them.
    pub fn replaces_test_outputs(&self) -> (r: bool)
        ensures
            r == (self.test_outputs@.len() > 0),
    {
        !self.test_outputs.is_empty()
    }

    /// The daredevil assigned by the edit; zero means none.
    pub fn assigned_daredevil(&self) -> (r: Option<i32>)
        ensures
            r == (if self.daredevil == 0 {
                None
            } else {
                Some(self.daredevil)
            }),
    {
        if self.daredevil == 0 {
            None
        } else {
            Some(self.daredevil)
        }
    }
}

impl<'a> UWallets<'a> {
    /// Whether the request names an editor to authorize it.
    pub fn has_principal(&self) -> (r: bool)
        ensures
            r == (self.editor@.len() > 0),
    {
        !self.editor.is_empty()
    }
}

impl<'a> RUsers<'a> {
    /// Whether the request names a remover to authorize it.
    pub fn has_principal(&self) -> (r: bool)
        ensures
            r == (self.remover@.len() > 0),
    {
        !self.remover.is_empty()
    }
}

impl<'a> RQuestions<'a> {
    /// Whether the request names a remover to authorize it.
    pub fn has_principal(&self) -> (r: bool)
        ensures
            r == (self.remover@.len() > 0),
    {
        !self.remover.is_empty()
    }
}

} // verus!
