//! The targets a Warpgate instance offers, as its `/@warpgate/api/targets` endpoint lists them.
use vstd::prelude::*;

verus! {

/// The characters of an optional string.
pub open spec fn opt_view(o: Option<String>) -> Option<Seq<char>> {
    match o {
        Some(s) => Some(s@),
        None => None,
    }
}

/// An optional string, or the empty text where it is absent.
pub open spec fn opt_or_empty(o: Option<Seq<char>>) -> Seq<char> {
    match o {
        Some(s) => s,
        None => Seq::empty(),
    }
}

/// Copies an optional string; the copy is equal to the value copied.
pub fn copy_opt_string(o: &Option<String>) -> (r: Option<String>)
    ensures
        r == *o,
{
    match o {
        Some(s) => Some(s.clone()),
        None => None,
    }
}

#[derive(Debug, Clone, PartialEq, Eq)]
pub struct WarpgateTargetGroup {
    pub name: String,
    pub color: Option<String>,
}

pub struct GroupView {
    pub name: Seq<char>,
    pub color: Option<Seq<char>>,
}

impl View for WarpgateTargetGroup {
    type V = GroupView;

    open spec fn view(&self) -> GroupView {
        GroupView { name: self.name@, color: opt_view(self.color) }
    }
}

impl WarpgateTargetGroup {
    pub fn new(name: String, color: Option<String>) -> (g: Self)
        ensures
            g.name == name,
            g.color == color,
    {
        WarpgateTargetGroup { name, color }
    }

    /// An equal copy of the group.
    pub fn duplicate(&self) -> (r: Self)
        ensures
            r == *self,
    {
        WarpgateTargetGroup { name: self.name.clone(), color: copy_opt_string(&self.color) }
    }
}

/// Copies an optional group; the copy is equal to the value copied.
pub fn copy_opt_group(o: &Option<WarpgateTargetGroup>) -> (r: Option<WarpgateTargetGroup>)
    ensures
        r == *o,
{
    match o {
        Some(g) => Some(g.duplicate()),
        None => None,
    }
}

#[derive(Debug, Clone)]
pub struct WarpgateTarget {
    pub description: Option<String>,
    pub group: Option<WarpgateTargetGroup>,
    pub kind: String,
    pub name: String,
}

pub struct TargetView {
    pub description: Option<Seq<char>>,
    pub group: Option<GroupView>,
    pub kind: Seq<char>,
    pub name: Seq<char>,
}

impl View for WarpgateTarget {
    type V = TargetView;

    open spec fn view(&self) -> TargetView {
        TargetView {
            description: opt_view(self.description),
            group: match self.group {
                Some(g) => Some(g@),
                None => None,
            },
            kind: self.kind@,
            name: self.name@,
        }
    }
}

/// A target is reachable over SSH where its kind is `Ssh`.
pub open spec fn is_ssh_spec(t: TargetView) -> bool {
    t.kind == "Ssh"@
}

/// The text a target is searched by: its name, then its description in brackets.
pub open spec fn filterable_name_spec(t: TargetView) -> Seq<char> {
    t.name + " ("@ + opt_or_empty(t.description) + ")"@
}

impl WarpgateTarget {
    pub fn new(
        description: Option<String>,
        group: Option<WarpgateTargetGroup>,
        kind: String,
        name: String,
    ) -> (t: Self)
        ensures
            t.description == description,
            t.group == group,
            t.kind == kind,
            t.name == name,
    {
        WarpgateTarget { description, group, kind, name }
    }

    pub fn is_ssh(&self) -> (b: bool)
        ensures
            b == is_ssh_spec(self@),
    {
        let ssh = String::from_str("Ssh");
        proof {
            reveal_strlit("Ssh");
        }
        self.kind == ssh
    }

    /// An equal copy of the target.
    pub fn duplicate(&self) -> (r: Self)
        ensures
            r == *self,
    {
        WarpgateTarget {
            description: copy_opt_string(&self.description),
            group: copy_opt_group(&self.group),
            kind: self.kind.clone(),
            name: self.name.clone(),
        }
    }

    /// The text the target is searched by: `"<name> (<description>)"`.
    pub fn filterable_name(&self) -> (s: String)
        ensures
            s@ == filterable_name_spec(self@),
    {
        proof {
            reveal_strlit(" (");
            reveal_strlit(")");
            reveal_strlit("");
        }
        let mut s = self.name.clone();
        s.append(" (");
        match &self.description {
            Some(d) => s.append(d.as_str()),
            None => s.append(""),
        }
        s.append(")");
        s
    }
}

/// A target together with the text it is searched by.
#[derive(Debug, Clone)]
pub struct WarpgateFilterableTarget {
    pub warpgate_target: WarpgateTarget,
    pub filterable_name: String,
}

impl WarpgateFilterableTarget {
    pub fn new(warpgate_target: WarpgateTarget) -> (r: Self)
        ensures
            r.warpgate_target == warpgate_target,
            r.filterable_name@ == filterable_name_spec(warpgate_target@),
    {
        let filterable_name = warpgate_target.filterable_name();
        WarpgateFilterableTarget { warpgate_target, filterable_name }
    }

    pub fn as_str(&self) -> (s: &str)
        ensures
            s@ == self.filterable_name@,
    {
        self.filterable_name.as_str()
    }
}

impl AsRef<str> for WarpgateFilterableTarget {
    fn as_ref(&self) -> (s: &str)
        ensures
            s@ == self.filterable_name@,
    {
        self.filterable_name.as_str()
    }
}

} // verus!
