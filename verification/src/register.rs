//! The registration form: the e-mail address must be valid, the password
//! strong, and the password typed twice the same; only then is the
//! registration sent.
use vstd::prelude::*;
use crate::front_error::Error;
use crate::group_types::UserInfo;

verus! {

/// Whether `validator::validate_email` accepts the text.
pub uninterp spec fn email_is_valid(email: Seq<char>) -> bool;

/// Rates the password with `zxcvbn::zxcvbn(password, &[])` and takes the
/// score of the estimate. The source shows that an empty password is refused
/// and that every score lies between 0 and 4. Which score a password gets is
/// left unsaid: it also depends on the current year, which the scoring reads
/// from the clock, and a refusal can come from reading the clock as well.
#[verifier::external_body]
fn password_score(password: &str) -> (res: Option<u8>)
    ensures
        score_fits(password@, res),
{
    zxcvbn::zxcvbn(password, &[]).ok().map(|estimate| estimate.score())
}

/// Checks the address with `validator::validate_email`. The contract names
/// the result, and states what the source shows first: a text without `@`
/// (the empty text among them) is refused.
#[verifier::external_body]
fn email_check(email: &str) -> (res: bool)
    ensures
        res == email_is_valid(email@),
        !email@.contains('@') ==> !res,
{
    validator::validate_email(email)
}

/// What holds of every rating of a password: an empty password gets no
/// score, and a score lies between 0 and 4.
pub open spec fn score_fits(password: Seq<char>, score: Option<u8>) -> bool {
    &&& password.len() == 0 ==> score is None
    &&& score matches Some(s) ==> s <= 4
}

/// The checks with the rating `score` recorded: the password is strong
/// exactly when its score is 4.
pub open spec fn with_score(v: RegisterValidation, score: Option<u8>) -> RegisterValidation {
    RegisterValidation { password_score: score, password_strong: score == Some(4u8), ..v }
}

/// The checks after a full validation with the rating `score`: the score
/// recorded, the address and the repeated password checked, and the form
/// valid where it was already or where the password is strong, the address
/// valid and the password typed the same twice.
pub open spec fn validated(
    v: RegisterValidation,
    username: Seq<char>,
    password: Seq<char>,
    confirmed: Seq<char>,
    score: Option<u8>,
) -> RegisterValidation {
    let strong = score == Some(4u8);
    let email = email_is_valid(username);
    let same = password == confirmed;
    RegisterValidation {
        all_valid: v.all_valid || (strong && email && same),
        email_valid: email,
        password_strong: strong,
        password_score: score,
        password_match: same,
    }
}

/// The colour of the strength bar.
#[derive(Debug, Clone, Copy, PartialEq, Eq, Structural)]
pub enum BarClass {
    Danger,
    Warning,
    Primary,
}

impl BarClass {
    /// The style class of the bar.
    pub fn class_name(&self) -> (res: &'static str)
        ensures
            res@ == match *self {
                BarClass::Danger => "progress is-danger"@,
                BarClass::Warning => "progress is-warning"@,
                BarClass::Primary => "progress is-primary"@,
            },
    {
        match self {
            BarClass::Danger => "progress is-danger",
            BarClass::Warning => "progress is-warning",
            BarClass::Primary => "progress is-primary",
        }
    }
}

/// The strength bar for a score: how full it is, out of 100, and its colour.
pub fn strength_bar(score: Option<u8>) -> (res: (u8, BarClass))
    ensures
        res == match score {
            Some(0) => (0u8, BarClass::Danger),
            Some(1) => (25u8, BarClass::Danger),
            Some(2) => (50u8, BarClass::Warning),
            Some(3) => (75u8, BarClass::Warning),
            Some(4) => (100u8, BarClass::Primary),
            _ => (0u8, BarClass::Primary),
        },
{
    match score {
        Some(0) => (0, BarClass::Danger),
        Some(1) => (25, BarClass::Danger),
        Some(2) => (50, BarClass::Warning),
        Some(3) => (75, BarClass::Warning),
        Some(4) => (100, BarClass::Primary),
        _ => (0, BarClass::Primary),
    }
}

/// The style class of a password box: marked where its check passes.
pub fn input_class(passed: bool) -> (res: &'static str)
    ensures
        res@ == if passed {
            "input is-primary"@
        } else {
            "input"@
        },
{
    if passed {
        "input is-primary"
    } else {
        "input"
    }
}

/// Which checks the form passes.
#[derive(Debug, Clone, Copy, PartialEq, Eq, Structural)]
pub struct RegisterValidation {
    pub all_valid: bool,
    pub email_valid: bool,
    pub password_strong: bool,
    pub password_score: Option<u8>,
    pub password_match: bool,
}

impl RegisterValidation {
    /// No check passed yet, no score.
    pub fn new() -> (res: Self)
        ensures
            !res.all_valid && !res.email_valid && !res.password_strong && res.password_score is None
                && !res.password_match,
    {
        RegisterValidation {
            all_valid: false,
            email_valid: false,
            password_strong: false,
            password_score: None,
            password_match: false,
        }
    }
}

/// The registration form.
#[derive(Debug)]
pub struct Register {
    pub username: String,
    pub validation: RegisterValidation,
    pub password: String,
    pub confirmed_password: String,
    pub password_strength: Option<u8>,
    pub error: Option<Error>,
}

/// What happens on the form. Typed text arrives as the input box's text, or
/// `None` where the event came from no input box.
#[derive(Debug)]
pub enum RegisterMsg {
    SetUsername(Option<String>),
    SetPassword(Option<String>),
    ConfirmPassword(Option<String>),
    RegisterUser,
    Noop,
}

/// What the form asks to be done after a message.
#[derive(Debug)]
pub enum RegisterAction {
    Nothing,
    /// Send this registration; the answer comes back as `Noop`.
    SendRegistration(UserInfo),
}

/// The form's fields other than its checks are unchanged.
pub open spec fn same_fields(a: &Register, b: &Register) -> bool {
    &&& a.username@ == b.username@
    &&& a.password@ == b.password@
    &&& a.confirmed_password@ == b.confirmed_password@
    &&& a.password_strength == b.password_strength
    &&& a.error == b.error
}

impl Register {
    /// An empty form.
    pub fn new() -> (res: Self)
        ensures
            res.username@.len() == 0 && res.password@.len() == 0
                && res.confirmed_password@.len() == 0,
            !res.validation.all_valid && !res.validation.email_valid
                && !res.validation.password_strong && res.validation.password_score is None
                && !res.validation.password_match,
            res.password_strength is None && res.error is None,
    {
        Register {
            username: String::new(),
            validation: RegisterValidation::new(),
            password: String::new(),
            confirmed_password: String::new(),
            password_strength: None,
            error: None,
        }
    }

    /// Records the rating `score` of the password: it is strong exactly when
    /// the score is 4.
    pub fn set_password_score(&mut self, score: Option<u8>)
        ensures
            same_fields(&*final(self), &*old(self)),
            final(self).validation == with_score(old(self).validation, score),
    {
        self.validation.password_score = score;
        match score {
            Some(4) => self.validation.password_strong = true,
            _ => self.validation.password_strong = false,
        }
    }

    /// Rates the password and records the rating.
    pub fn validate_password_strength(&mut self)
        ensures
            same_fields(&*final(self), &*old(self)),
            score_fits(old(self).password@, final(self).validation.password_score),
            final(self).validation == with_score(
                old(self).validation,
                final(self).validation.password_score,
            ),
    {
        let score = password_score(self.password.as_str());
        self.set_password_score(score);
    }

    /// Checks the e-mail address.
    pub fn validate_email(&mut self)
        ensures
            same_fields(&*final(self), &*old(self)),
            final(self).validation == (RegisterValidation {
                email_valid: email_is_valid(old(self).username@),
                ..old(self).validation
            }),
    {
        self.validation.email_valid = email_check(self.username.as_str());
    }

    /// Checks that the password was typed the same twice.
    pub fn validate_repeated_pass(&mut self)
        ensures
            same_fields(&*final(self), &*old(self)),
            final(self).validation == (RegisterValidation {
                password_match: old(self).password@ == old(self).confirmed_password@,
                ..old(self).validation
            }),
    {
        self.validation.password_match = self.password == self.confirmed_password;
    }

    /// Runs the three checks with the rating `score` for the password; the
    /// form becomes valid when all three pass, and stays as it was
    /// otherwise.
    pub fn full_validation_check_with(&mut self, score: Option<u8>)
        ensures
            same_fields(&*final(self), &*old(self)),
            final(self).validation == validated(
                old(self).validation,
                old(self).username@,
                old(self).password@,
                old(self).confirmed_password@,
                score,
            ),
    {
        self.set_password_score(score);
        self.validate_email();
        self.validate_repeated_pass();
        if self.validation.password_strong && self.validation.email_valid
            && self.validation.password_match {
            self.validation.all_valid = true;
        }
    }

    /// Rates the password and runs the three checks.
    pub fn full_validation_check(&mut self)
        ensures
            same_fields(&*final(self), &*old(self)),
            score_fits(old(self).password@, final(self).validation.password_score),
            final(self).validation == validated(
                old(self).validation,
                old(self).username@,
                old(self).password@,
                old(self).confirmed_password@,
                final(self).validation.password_score,
            ),
    {
        let score = password_score(self.password.as_str());
        self.full_validation_check_with(score);
    }

    /// Takes the message `msg` and returns what is to be done.
    pub fn update(&mut self, msg: RegisterMsg) -> (action: RegisterAction)
        ensures
            match msg {
                RegisterMsg::SetUsername(t) => {
                    &&& final(self).username@ == (match t {
                        Some(v) => v@,
                        None => old(self).username@,
                    })
                    &&& final(self).password@ == old(self).password@
                    &&& final(self).confirmed_password@ == old(self).confirmed_password@
                    &&& final(self).password_strength == old(self).password_strength
                    &&& final(self).error == old(self).error
                    &&& final(self).validation == (RegisterValidation {
                        email_valid: email_is_valid(final(self).username@),
                        ..old(self).validation
                    })
                    &&& action is Nothing
                },
                RegisterMsg::SetPassword(t) => {
                    &&& final(self).password@ == (match t {
                        Some(v) => v@,
                        None => old(self).password@,
                    })
                    &&& final(self).username@ == old(self).username@
                    &&& final(self).confirmed_password@ == old(self).confirmed_password@
                    &&& final(self).password_strength == old(self).password_strength
                    &&& final(self).error == old(self).error
                    &&& score_fits(final(self).password@, final(self).validation.password_score)
                    &&& final(self).validation == with_score(
                        old(self).validation,
                        final(self).validation.password_score,
                    )
                    &&& action is Nothing
                },
                RegisterMsg::ConfirmPassword(t) => {
                    &&& final(self).confirmed_password@ == (match t {
                        Some(v) => v@,
                        None => old(self).confirmed_password@,
                    })
                    &&& final(self).username@ == old(self).username@
                    &&& final(self).password@ == old(self).password@
                    &&& final(self).password_strength == old(self).password_strength
                    &&& final(self).error == old(self).error
                    &&& final(self).validation == (RegisterValidation {
                        password_match: final(self).password@ == final(self).confirmed_password@,
                        ..old(self).validation
                    })
                    &&& action is Nothing
                },
                RegisterMsg::RegisterUser => {
                    &&& same_fields(&*final(self), &*old(self))
                    &&& score_fits(old(self).password@, final(self).validation.password_score)
                    &&& final(self).validation == validated(
                        old(self).validation,
                        old(self).username@,
                        old(self).password@,
                        old(self).confirmed_password@,
                        final(self).validation.password_score,
                    )
                    &&& if final(self).validation.all_valid {
                        action matches RegisterAction::SendRegistration(u) && u.username@
                            == old(self).username@ && u.password@ == old(self).password@
                    } else {
                        action is Nothing
                    }
                },
                RegisterMsg::Noop => action is Nothing && same_fields(&*final(self), &*old(self))
                    && final(self).validation == old(self).validation,
            },
    {
        match msg {
            RegisterMsg::Noop => RegisterAction::Nothing,
            RegisterMsg::SetUsername(text) => {
                match text {
                    Some(v) => {
                        self.username = v;
                    },
                    None => {},
                }
                self.validate_email();
                RegisterAction::Nothing
            },
            RegisterMsg::SetPassword(text) => {
                match text {
                    Some(v) => {
                        self.password = v;
                    },
                    None => {},
                }
                self.validate_password_strength();
                RegisterAction::Nothing
            },
            RegisterMsg::ConfirmPassword(text) => {
                match text {
                    Some(v) => {
                        self.confirmed_password = v;
                    },
                    None => {},
                }
                self.validate_repeated_pass();
                RegisterAction::Nothing
            },
            RegisterMsg::RegisterUser => {
                let user = UserInfo {
                    username: self.username.clone(),
                    password: self.password.clone(),
                };
                self.full_validation_check();
                if self.validation.all_valid {
                    RegisterAction::SendRegistration(user)
                } else {
                    RegisterAction::Nothing
                }
            },
        }
    }
}

/// A form that was not valid becomes valid only where the password's score
/// is 4, the address is valid and the password was typed the same twice.
pub proof fn law_valid_only_when_strong(
    v: RegisterValidation,
    username: Seq<char>,
    password: Seq<char>,
    confirmed: Seq<char>,
    score: Option<u8>,
)
    requires
        !v.all_valid,
    ensures
        validated(v, username, password, confirmed, score).all_valid <==> (score == Some(4u8)
            && email_is_valid(username) && password == confirmed),
{
}

} // verus!
