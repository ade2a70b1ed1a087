//! Identifiers and resource names as the management API accepts them.

use vstd::prelude::*;

verus! {

/// Whether `c` is alphabetic or numeric in the sense of the Unicode
/// character database that the standard library carries.
pub uninterp spec fn is_alphanumeric(c: char) -> bool;

/// `char::is_alphanumeric` of the standard library: its answer depends on the
/// character alone, and `is_alphanumeric` is the name of that answer.
pub assume_specification[ char::is_alphanumeric ](c: char) -> (b: bool)
    ensures
        b == is_alphanumeric(c),
;

/// A character that may occur in an identifier: alphanumeric or `-`.
pub open spec fn id_char(c: char) -> bool {
    is_alphanumeric(c) || c == '-'
}

/// A character that may occur in a resource name: alphanumeric or one of
/// `_`, `-`, `.`, `(`, `)`.
pub open spec fn name_char(c: char) -> bool {
    is_alphanumeric(c) || c == '_' || c == '-' || c == '.' || c == '(' || c == ')'
}

/// Every character of `s` may occur in an identifier.
pub open spec fn valid_id(s: Seq<char>) -> bool {
    forall|i: int| 0 <= i < s.len() ==> id_char(#[trigger] s[i])
}

/// Every character of `s` may occur in a resource name.
pub open spec fn valid_name(s: Seq<char>) -> bool {
    forall|i: int| 0 <= i < s.len() ==> name_char(#[trigger] s[i])
}

/// An identifier of a directory, a client or a subscription.
#[derive(Debug)]
pub struct AzureId {
    id: String,
}

impl View for AzureId {
    type V = Seq<char>;

    closed spec fn view(&self) -> Seq<char> {
        self.id@
    }
}

impl Clone for AzureId {
    fn clone(&self) -> (r: Self)
        ensures
            r@ == self@,
    {
        proof {
            use_type_invariant(self);
        }
        AzureId { id: self.id.clone() }
    }
}

impl AzureId {
    /// The invariant of the type: only identifier characters occur.
    pub open spec fn wf(&self) -> bool {
        valid_id(self@)
    }

    #[verifier::type_invariant]
    spec fn inv(&self) -> bool {
        self.wf()
    }

    /// The identifier as text.
    pub fn id(&self) -> (s: &str)
        ensures
            s@ == self@,
            valid_id(s@),
    {
        proof {
            use_type_invariant(self);
        }
        self.id.as_str()
    }

    /// Tells whether `s` is made of identifier characters only.
    pub fn valid_string(s: &str) -> (ok: bool)
        ensures
            ok == valid_id(s@),
    {
        let mut ok = true;
        for c in it: s.chars()
            invariant
                ok == (forall|i: int| 0 <= i < it.index() ==> id_char(#[trigger] s@[i])),
                it.seq() == s@,
        {
            let good = c.is_alphanumeric() || c == '-';
            ok = ok && good;
        }
        ok
    }

    /// Takes `s` as an identifier if it is one.
    pub fn new(s: String) -> (r: Option<AzureId>)
        ensures
            r is Some <==> valid_id(s@),
            r matches Some(id) ==> id@ == s@,
    {
        if AzureId::valid_string(s.as_str()) {
            Some(AzureId { id: s })
        } else {
            None
        }
    }
}

/// The name of a resource group or of a resource in one.
#[derive(Debug)]
pub struct AzureName {
    name: String,
}

impl View for AzureName {
    type V = Seq<char>;

    closed spec fn view(&self) -> Seq<char> {
        self.name@
    }
}

impl Clone for AzureName {
    fn clone(&self) -> (r: Self)
        ensures
            r@ == self@,
    {
        proof {
            use_type_invariant(self);
        }
        AzureName { name: self.name.clone() }
    }
}

impl AzureName {
    /// The invariant of the type: only name characters occur.
    pub open spec fn wf(&self) -> bool {
        valid_name(self@)
    }

    #[verifier::type_invariant]
    spec fn inv(&self) -> bool {
        self.wf()
    }

    /// The name as text.
    pub fn name(&self) -> (s: &str)
        ensures
            s@ == self@,
            valid_name(s@),
    {
        proof {
            use_type_invariant(self);
        }
        self.name.as_str()
    }

    /// Tells whether `s` is made of name characters only.
    pub fn valid_string(s: &str) -> (ok: bool)
        ensures
            ok == valid_name(s@),
    {
        let mut ok = true;
        for c in it: s.chars()
            invariant
                ok == (forall|i: int| 0 <= i < it.index() ==> name_char(#[trigger] s@[i])),
                it.seq() == s@,
        {
            let good = c.is_alphanumeric() || c == '_' || c == '-' || c == '.' || c == '('
                || c == ')';
            ok = ok && good;
        }
        ok
    }

    /// Takes `s` as a name if it is one.
    pub fn new(s: String) -> (r: Option<AzureName>)
        ensures
            r is Some <==> valid_name(s@),
            r matches Some(name) ==> name@ == s@,
    {
        if AzureName::valid_string(s.as_str()) {
            Some(AzureName { name: s })
        } else {
            None
        }
    }
}

} // verus!
