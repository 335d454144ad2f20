use vstd::prelude::*;

verus! {

/// The dialog that asks for the administrator's password.
pub struct PasswordModal {
    show: bool,
    password_input: String,
    operation_name: String,
    confirmed: bool,
    cancelled: bool,
    show_password: bool,
}

pub struct PasswordModalView {
    pub show: bool,
    pub password_input: Seq<char>,
    pub operation_name: Seq<char>,
    pub confirmed: bool,
    pub cancelled: bool,
    pub show_password: bool,
}

impl View for PasswordModal {
    type V = PasswordModalView;

    closed spec fn view(&self) -> PasswordModalView {
        PasswordModalView {
            show: self.show,
            password_input: self.password_input@,
            operation_name: self.operation_name@,
            confirmed: self.confirmed,
            cancelled: self.cancelled,
            show_password: self.show_password,
        }
    }
}

impl PasswordModalView {
    /// A closed dialog that holds nothing.
    pub open spec fn closed() -> PasswordModalView {
        PasswordModalView {
            show: false,
            password_input: Seq::empty(),
            operation_name: Seq::empty(),
            confirmed: false,
            cancelled: false,
            show_password: false,
        }
    }

    /// What the user's answer is, if there is one: a confirmation comes
    /// with the password and goes before a cancellation.
    pub open spec fn answer(self) -> Option<(bool, Seq<char>)> {
        if self.confirmed {
            Some((true, self.password_input))
        } else if self.cancelled {
            Some((false, Seq::empty()))
        } else {
            None
        }
    }

    /// The dialog after its answer was taken: closed, the password
    /// forgotten, and the answer that was taken cleared.
    pub open spec fn answered(self) -> PasswordModalView {
        if self.confirmed {
            PasswordModalView {
                confirmed: false,
                password_input: Seq::empty(),
                show: false,
                ..self
            }
        } else if self.cancelled {
            PasswordModalView {
                cancelled: false,
                password_input: Seq::empty(),
                show: false,
                ..self
            }
        } else {
            self
        }
    }
}

impl PasswordModal {
    pub fn new() -> (modal: Self)
        ensures
            modal@ == PasswordModalView::closed(),
    {
        PasswordModal {
            show: false,
            password_input: String::new(),
            operation_name: String::new(),
            confirmed: false,
            cancelled: false,
            show_password: false,
        }
    }

    /// Opens the dialog for an operation, with an empty password and no
    /// answer.
    pub fn show(&mut self, operation_name: String)
        ensures
            final(self)@ == (PasswordModalView {
                show: true,
                operation_name: operation_name@,
                ..PasswordModalView::closed()
            }),
    {
        self.show = true;
        self.password_input = String::new();
        self.operation_name = operation_name;
        self.confirmed = false;
        self.cancelled = false;
        self.show_password = false;
    }

    pub fn is_open(&self) -> (open: bool)
        ensures
            open == self@.show,
    {
        self.show
    }

    /// Takes the user's answer, if there is one: `true` with the password
    /// after a confirmation, `false` with an empty text after a
    /// cancellation. Taking the answer closes the dialog and forgets the
    /// password.
    pub fn take_result(&mut self) -> (answer: Option<(bool, String)>)
        ensures
            final(self)@ == old(self)@.answered(),
            match answer {
                Some((confirmed, password)) => old(self)@.answer() == Some((confirmed, password@)),
                None => old(self)@.answer() is None,
            },
    {
        if self.confirmed {
            self.confirmed = false;
            let mut password = String::new();
            core::mem::swap(&mut self.password_input, &mut password);
            self.show = false;
            Some((true, password))
        } else if self.cancelled {
            self.cancelled = false;
            self.password_input = String::new();
            self.show = false;
            Some((false, String::new()))
        } else {
            None
        }
    }

    /// Closes the dialog as cancelled and forgets the password.
    pub fn close(&mut self)
        ensures
            final(self)@ == (PasswordModalView {
                show: false,
                password_input: Seq::empty(),
                cancelled: true,
                ..old(self)@
            }),
    {
        self.show = false;
        self.password_input = String::new();
        self.cancelled = true;
    }

    /// Records that the user confirmed.
    pub fn confirm(&mut self)
        ensures
            final(self)@ == (PasswordModalView { confirmed: true, ..old(self)@ }),
    {
        self.confirmed = true;
    }

    /// Records that the user cancelled.
    pub fn cancel(&mut self)
        ensures
            final(self)@ == (PasswordModalView { cancelled: true, ..old(self)@ }),
    {
        self.cancelled = true;
    }

    pub fn operation_name(&self) -> (name: &str)
        ensures
            name@ == self@.operation_name,
    {
        self.operation_name.as_str()
    }

    /// Whether the password is shown in clear.
    pub fn shows_password(&self) -> (clear: bool)
        ensures
            clear == self@.show_password,
    {
        self.show_password
    }

    pub fn set_show_password(&mut self, clear: bool)
        ensures
            final(self)@ == (PasswordModalView { show_password: clear, ..old(self)@ }),
    {
        self.show_password = clear;
    }

    /// The password typed so far, for the caller to edit in place.
    pub fn password_input_mut(&mut self) -> (input: &mut String)
        ensures
            input@ == old(self)@.password_input,
            final(self)@ == (PasswordModalView { password_input: final(input)@, ..old(self)@ }),
    {
        &mut self.password_input
    }
}

impl Default for PasswordModal {
    fn default() -> (modal: Self)
        ensures
            modal@ == PasswordModalView::closed(),
    {
        PasswordModal::new()
    }
}

} // verus!
