//! Status shapes that deployments report back through the platform:
//! a colored status name and a list of leveled notices.

use vstd::prelude::*;

verus! {

/// The display color a status is rendered with.
#[derive(Clone, Copy, Debug, PartialEq, Eq, Structural)]
pub enum StatusColor {
    Primary,
    Success,
    Danger,
    Warning,
    Secondary,
}

impl StatusColor {
    /// The color's lower-case wire name.
    pub fn as_str(&self) -> (r: &'static str)
        ensures
            r@ == self.spec_name(),
    {
        match self {
            StatusColor::Primary => "primary",
            StatusColor::Success => "success",
            StatusColor::Danger => "danger",
            StatusColor::Warning => "warning",
            StatusColor::Secondary => "secondary",
        }
    }

    /// What `as_str` returns for each color.
    pub open spec fn spec_name(&self) -> Seq<char> {
        match self {
            StatusColor::Primary => "primary"@,
            StatusColor::Success => "success"@,
            StatusColor::Danger => "danger"@,
            StatusColor::Warning => "warning"@,
            StatusColor::Secondary => "secondary"@,
        }
    }
}

/// A named status with its display color.
#[derive(Clone, Debug)]
pub struct Status<SN> {
    pub name: SN,
    pub color: StatusColor,
}

/// How urgent a notice is.
#[derive(Clone, Copy, Debug, PartialEq, Eq, Structural)]
pub enum NoticeLevel {
    Info,
    Warning,
    Danger,
}

/// One notice shown alongside a status.
#[derive(Clone, Debug)]
pub struct Notice {
    pub level: NoticeLevel,
    pub text: String,
}

} // verus!
