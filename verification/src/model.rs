//! The records of a harvest: candidates scraped from the index, and icons
//! resolved from their detail pages.

use vstd::prelude::*;
use vstd::string::StringExecFns;
use crate::hex::is_hex_code;
use crate::hex::is_hex_literal;

verus! {

/// Whether `name` is one of the two entries of the index that describe the
/// icon font itself and stand for no icon.
pub open spec fn is_reserved(name: Seq<char>) -> bool {
    name == "iconFont"@ || name == "iconFontPackage"@
}

/// Tells whether `name` is reserved.
pub fn is_reserved_name(name: &str) -> (reserved: bool)
    ensures
        reserved == is_reserved(name@),
{
    let given = String::from_str(name);
    given == String::from_str("iconFont") || given == String::from_str("iconFontPackage")
}

/// Mathematical value of an [`Icon`].
pub struct IconView {
    pub name: Seq<char>,
    pub code: Seq<char>,
}

impl IconView {
    /// What holds of every icon: it has a name, and its code is a
    /// hexadecimal literal.
    pub open spec fn valid(self) -> bool {
        self.name.len() > 0 && is_hex_literal(self.code)
    }
}

/// An icon's name with its resolved code point.
#[derive(Debug, PartialEq, Eq)]
pub struct Icon {
    icon_name: String,
    icon_code: String,
}

impl View for Icon {
    type V = IconView;

    closed spec fn view(&self) -> IconView {
        IconView { name: self.icon_name@, code: self.icon_code@ }
    }
}

impl DeepView for Icon {
    type V = IconView;

    open spec fn deep_view(&self) -> IconView {
        self@
    }
}

impl Clone for Icon {
    fn clone(&self) -> (copy: Icon)
        ensures
            copy@ == self@,
    {
        proof {
            use_type_invariant(self);
        }
        Icon { icon_name: self.icon_name.clone(), icon_code: self.icon_code.clone() }
    }
}

impl Icon {
    #[verifier::type_invariant]
    spec fn well_formed(&self) -> bool {
        self@.valid()
    }

    /// Makes an icon of a name and a code, where the two are fit for one.
    pub fn new(name: String, code: String) -> (made: Option<Icon>)
        ensures
            match made {
                Some(icon) => icon@ == (IconView { name: name@, code: code@ }) && icon@.valid(),
                None => !(IconView { name: name@, code: code@ }).valid(),
            },
    {
        if name.as_str().is_empty() || !is_hex_code(code.as_str()) {
            None
        } else {
            Some(Icon { icon_name: name, icon_code: code })
        }
    }

    /// Makes an icon of a name and a code that are known to be fit.
    pub(crate) fn assemble(name: String, code: String) -> (made: Icon)
        requires
            (IconView { name: name@, code: code@ }).valid(),
        ensures
            made@ == (IconView { name: name@, code: code@ }),
    {
        Icon { icon_name: name, icon_code: code }
    }

    /// The icon's name.
    pub fn icon_name(&self) -> (name: &str)
        ensures
            name@ == self@.name,
            self@.valid(),
    {
        proof {
            use_type_invariant(self);
        }
        self.icon_name.as_str()
    }

    /// The icon's code point, as a hexadecimal literal.
    pub fn icon_code(&self) -> (code: &str)
        ensures
            code@ == self@.code,
            self@.valid(),
    {
        proof {
            use_type_invariant(self);
        }
        self.icon_code.as_str()
    }
}

/// Mathematical value of a [`Candidate`].
pub struct CandidateView {
    pub name: Seq<char>,
    pub link: Seq<char>,
}

impl CandidateView {
    /// What holds of every candidate: its name is none of the reserved ones.
    pub open spec fn valid(self) -> bool {
        !is_reserved(self.name)
    }
}

/// An entry of the index that stands for an icon: its name and the link to
/// its detail page.
#[derive(Debug, PartialEq, Eq)]
pub struct Candidate {
    name: String,
    link: String,
}

impl View for Candidate {
    type V = CandidateView;

    closed spec fn view(&self) -> CandidateView {
        CandidateView { name: self.name@, link: self.link@ }
    }
}

impl DeepView for Candidate {
    type V = CandidateView;

    open spec fn deep_view(&self) -> CandidateView {
        self@
    }
}

impl Clone for Candidate {
    fn clone(&self) -> (copy: Candidate)
        ensures
            copy@ == self@,
    {
        proof {
            use_type_invariant(self);
        }
        Candidate { name: self.name.clone(), link: self.link.clone() }
    }
}

impl Candidate {
    #[verifier::type_invariant]
    spec fn well_formed(&self) -> bool {
        self@.valid()
    }

    /// Makes a candidate of a name and a link, where the name is fit for one.
    pub fn new(name: String, link: String) -> (made: Option<Candidate>)
        ensures
            match made {
                Some(c) => c@ == (CandidateView { name: name@, link: link@ }) && c@.valid(),
                None => !(CandidateView { name: name@, link: link@ }).valid(),
            },
    {
        if is_reserved_name(name.as_str()) {
            None
        } else {
            Some(Candidate { name, link })
        }
    }

    /// Makes a candidate of a name and a link that are known to be fit.
    pub(crate) fn assemble(name: String, link: String) -> (made: Candidate)
        requires
            (CandidateView { name: name@, link: link@ }).valid(),
        ensures
            made@ == (CandidateView { name: name@, link: link@ }),
    {
        Candidate { name, link }
    }

    /// The same candidate with `base` put before its link.
    pub fn joined_to(&self, base: &str) -> (joined: Candidate)
        ensures
            joined@ == (CandidateView { name: self@.name, link: base@ + self@.link }),
    {
        proof {
            use_type_invariant(self);
        }
        Candidate {
            name: self.name.clone(),
            link: String::from_str(base).concat(self.link.as_str()),
        }
    }

    /// The candidate's name.
    pub fn name(&self) -> (name: &str)
        ensures
            name@ == self@.name,
            self@.valid(),
    {
        proof {
            use_type_invariant(self);
        }
        self.name.as_str()
    }

    /// The link to the candidate's detail page.
    pub fn link(&self) -> (link: &str)
        ensures
            link@ == self@.link,
    {
        self.link.as_str()
    }
}

} // verus!
