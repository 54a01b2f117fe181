//! The fixed set of job roles and their daily salaries.
use vstd::prelude::*;

verus! {

/// One of the six job categories an attendee can hold.
#[derive(Debug, Clone, Copy, PartialEq, Eq, Structural)]
pub enum Roles {
    BackendDeveloperSpecial,
    BackendDeveloperSenior,
    FrontendDeveloperSpecial,
    FrontendDeveloperSenior,
    ProjectManager,
    Director,
}

/// Number of roles.
pub const ROLE_COUNT: usize = 6;

/// Daily salary of a role, in currency units.
pub open spec fn daily_salary(role: Roles) -> int {
    match role {
        Roles::BackendDeveloperSpecial => 700,
        Roles::BackendDeveloperSenior => 1000,
        Roles::FrontendDeveloperSpecial => 700,
        Roles::FrontendDeveloperSenior => 1000,
        Roles::ProjectManager => 1200,
        Roles::Director => 1500,
    }
}

/// The roles in menu order.
pub open spec fn role_order() -> Seq<Roles> {
    seq![
        Roles::BackendDeveloperSpecial,
        Roles::BackendDeveloperSenior,
        Roles::FrontendDeveloperSpecial,
        Roles::FrontendDeveloperSenior,
        Roles::ProjectManager,
        Roles::Director,
    ]
}

/// The display title of a role.
pub open spec fn role_title(role: Roles) -> Seq<char> {
    match role {
        Roles::BackendDeveloperSpecial => "Specialist Backend Developer"@,
        Roles::BackendDeveloperSenior => "Senior Backend Developer"@,
        Roles::FrontendDeveloperSpecial => "Specialist Frontend Developer"@,
        Roles::FrontendDeveloperSenior => "Senior Frontend Developer"@,
        Roles::ProjectManager => "Projekt Manager"@,
        Roles::Director => "Technical Director"@,
    }
}

impl Roles {
    /// All roles, in the order the add menu lists them.
    #[allow(non_snake_case)]
    pub fn Iterator() -> (r: Vec<Roles>)
        ensures
            r@ == role_order(),
    {
        let r = vec![
            Roles::BackendDeveloperSpecial,
            Roles::BackendDeveloperSenior,
            Roles::FrontendDeveloperSpecial,
            Roles::FrontendDeveloperSenior,
            Roles::ProjectManager,
            Roles::Director,
        ];
        assert(r@ =~= role_order());
        r
    }

    /// The daily salary of this role.
    pub fn salary(&self) -> (r: i32)
        ensures
            r == daily_salary(*self),
    {
        match self {
            Roles::BackendDeveloperSenior => 1000,
            Roles::BackendDeveloperSpecial => 700,
            Roles::FrontendDeveloperSenior => 1000,
            Roles::FrontendDeveloperSpecial => 700,
            Roles::ProjectManager => 1200,
            Roles::Director => 1500,
        }
    }

    /// The title shown for this role in the roster and in the add menu.
    pub fn title(&self) -> (r: &'static str)
        ensures
            r@ == role_title(*self),
    {
        match self {
            Roles::BackendDeveloperSenior => "Senior Backend Developer",
            Roles::BackendDeveloperSpecial => "Specialist Backend Developer",
            Roles::FrontendDeveloperSenior => "Senior Frontend Developer",
            Roles::FrontendDeveloperSpecial => "Specialist Frontend Developer",
            Roles::ProjectManager => "Projekt Manager",
            Roles::Director => "Technical Director",
        }
    }

    /// The role listed at `index` (counted from 0) in the add menu, if any.
    pub fn at(index: usize) -> (r: Option<Roles>)
        ensures
            index < ROLE_COUNT ==> r == Some(role_order()[index as int]),
            index >= ROLE_COUNT ==> r.is_none(),
    {
        if index == 0 {
            Some(Roles::BackendDeveloperSpecial)
        } else if index == 1 {
            Some(Roles::BackendDeveloperSenior)
        } else if index == 2 {
            Some(Roles::FrontendDeveloperSpecial)
        } else if index == 3 {
            Some(Roles::FrontendDeveloperSenior)
        } else if index == 4 {
            Some(Roles::ProjectManager)
        } else if index == 5 {
            Some(Roles::Director)
        } else {
            None
        }
    }
}

} // verus!
