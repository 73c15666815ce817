use vstd::prelude::*;

verus! {

/// What to do with the system once its closure is on the remote host.
#[derive(Clone, Copy, Debug, PartialEq, Eq, Structural)]
pub enum Action {
    Switch,
    Boot,
    Test,
    DryActivate,
    Reboot,
}

/// The verb understood by the remote activation binary.
#[derive(Clone, Copy, Debug, PartialEq, Eq, Structural)]
pub enum Verb {
    Switch,
    Boot,
    Test,
    DryActivate,
}

/// The remote verb of an action: the action itself, except that a reboot
/// boots into the new system first.
pub open spec fn verb_of(a: Action) -> Verb {
    match a {
        Action::Switch => Verb::Switch,
        Action::Boot => Verb::Boot,
        Action::Test => Verb::Test,
        Action::DryActivate => Verb::DryActivate,
        Action::Reboot => Verb::Boot,
    }
}

/// Whether an action moves the profile to the new store path before activating.
pub open spec fn moves_profile(a: Action) -> bool {
    a == Action::Switch || a == Action::Boot || a == Action::Reboot
}

/// The name of an action on the command line.
pub open spec fn action_name(a: Action) -> Seq<char> {
    match a {
        Action::Switch => "switch"@,
        Action::Boot => "boot"@,
        Action::Test => "test"@,
        Action::DryActivate => "dry-activate"@,
        Action::Reboot => "reboot"@,
    }
}

/// The word that the activation binary takes for a verb.
pub open spec fn verb_name(v: Verb) -> Seq<char> {
    match v {
        Verb::Switch => "switch"@,
        Verb::Boot => "boot"@,
        Verb::Test => "test"@,
        Verb::DryActivate => "dry-activate"@,
    }
}

impl Action {
    /// The verb passed to the remote activation binary.
    pub fn remote_verb(&self) -> (r: Verb)
        ensures
            r == verb_of(*self),
            *self != Action::Reboot ==> verb_name(r) == action_name(*self),
            *self == Action::Reboot ==> r == Verb::Boot,
    {
        proof {
            reveal_strlit("switch");
            reveal_strlit("boot");
            reveal_strlit("test");
            reveal_strlit("dry-activate");
        }
        match self {
            Action::Switch => Verb::Switch,
            Action::Boot => Verb::Boot,
            Action::Test => Verb::Test,
            Action::DryActivate => Verb::DryActivate,
            Action::Reboot => Verb::Boot,
        }
    }

    /// Whether the profile is set to the new path before activation.
    pub fn sets_profile(&self) -> (r: bool)
        ensures
            r == moves_profile(*self),
    {
        match self {
            Action::Switch | Action::Boot | Action::Reboot => true,
            Action::Test | Action::DryActivate => false,
        }
    }

    /// The action named `s` on the command line, if any.
    pub fn from_name(s: &str) -> (r: Option<Action>)
        ensures
            r matches Some(a) ==> action_name(a) == s@,
            r is None ==> forall|a: Action| action_name(a) != s@,
    {
        proof {
            reveal_strlit("switch");
            reveal_strlit("boot");
            reveal_strlit("test");
            reveal_strlit("dry-activate");
            reveal_strlit("reboot");
        }
        let t = s.to_owned();
        if t == "switch".to_owned() {
            Some(Action::Switch)
        } else if t == "boot".to_owned() {
            Some(Action::Boot)
        } else if t == "test".to_owned() {
            Some(Action::Test)
        } else if t == "dry-activate".to_owned() {
            Some(Action::DryActivate)
        } else if t == "reboot".to_owned() {
            Some(Action::Reboot)
        } else {
            None
        }
    }
}

impl Verb {
    /// The word that the activation binary takes.
    pub fn name(&self) -> (r: &'static str)
        ensures
            r@ == verb_name(*self),
    {
        match self {
            Verb::Switch => "switch",
            Verb::Boot => "boot",
            Verb::Test => "test",
            Verb::DryActivate => "dry-activate",
        }
    }
}

} // verus!
