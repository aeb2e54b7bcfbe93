use vstd::prelude::*;
use vstd::string::StringExecFns;

verus! {

/// The mathematical value of an identity: its name and its email address.
pub struct IdentityView {
    pub name: Seq<char>,
    pub email: Seq<char>,
}

impl IdentityView {
    /// The identity as one text: the name, then the email between angle
    /// brackets.
    pub open spec fn label(self) -> Seq<char> {
        self.name + " <"@ + self.email + ">"@
    }
}

/// A stored name/email pair usable as an authorship identity.
#[derive(Debug, PartialEq, Eq)]
pub struct GitUser {
    pub name: String,
    pub email: String,
}

impl View for GitUser {
    type V = IdentityView;

    open spec fn view(&self) -> IdentityView {
        IdentityView { name: self.name@, email: self.email@ }
    }
}

impl GitUser {
    /// The identity as one text: the name, then the email between angle
    /// brackets.
    pub fn to_string(&self) -> (text: String)
        ensures
            text@ == self@.label(),
    {
        self.name.clone().concat(" <").concat(self.email.as_str()).concat(">")
    }
}

impl Clone for GitUser {
    fn clone(&self) -> (copy: Self)
        ensures
            copy == *self,
    {
        GitUser { name: self.name.clone(), email: self.email.clone() }
    }
}

} // verus!
