use vstd::prelude::*;
use vstd::std_specs::iter::IteratorSpec;

verus! {

/// The character every address must contain.
pub const AT_SIGN: char = '@';

/// Whether `text` can be an e-mail address: it is not empty and holds an `@`.
pub open spec fn is_email_text(text: Seq<char>) -> bool {
    text.len() > 0 && text.contains(AT_SIGN)
}

/// A validated e-mail address.
#[derive(Debug, PartialEq, Eq, Hash)]
pub struct Email(String);

impl View for Email {
    type V = Seq<char>;

    closed spec fn view(&self) -> Seq<char> {
        self.0@
    }
}

impl Clone for Email {
    fn clone(&self) -> (copy: Self)
        ensures
            copy@ == self@,
    {
        proof {
            use_type_invariant(self);
        }
        Email(self.0.clone())
    }
}

impl AsRef<str> for Email {
    fn as_ref(&self) -> (text: &str)
        ensures
            text@ == self@,
            is_email_text(text@),
    {
        proof {
            use_type_invariant(self);
        }
        self.0.as_str()
    }
}

impl Email {
    #[verifier::type_invariant]
    spec fn well_formed(&self) -> bool {
        is_email_text(self.0@)
    }

    /// Accepts `email` exactly when it is not empty and contains `@`.
    pub fn parse(email: String) -> (parsed: Result<Email, ()>)
        ensures
            parsed is Ok <==> is_email_text(email@),
            parsed matches Ok(address) ==> address@ == email@,
    {
        let mut found = false;
        let chars = email.as_str().chars();
        for c in it: chars
            invariant
                it.seq() == email@,
                found <==> exists|i: int| 0 <= i < it.index() && email@[i] == AT_SIGN,
        {
            if c == AT_SIGN {
                found = true;
            }
        }
        if found {
            Ok(Email(email))
        } else {
            Err(())
        }
    }
}

} // verus!
