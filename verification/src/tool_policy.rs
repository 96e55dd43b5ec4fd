//! Tool policies: whether a tool may run, and the limits it runs under.

use crate::json::key_index_from;
use crate::text::{duplicate_texts, str_eq, text_views};
use vstd::prelude::*;

verus! {

/// What to do when the model asks for a tool.
#[derive(Debug, Clone, Copy, PartialEq, Eq, Structural)]
pub enum ToolPolicy {
    /// Run it.
    Allow,
    /// Ask the user first.
    Prompt,
    /// Refuse.
    Deny,
}

/// The model of an optional list of texts.
pub open spec fn opt_text_views(items: Option<Vec<String>>) -> Option<Seq<Seq<char>>> {
    match items {
        Some(v) => Some(text_views(v@)),
        None => None,
    }
}

/// Model of [`ToolConstraints`].
pub struct ToolConstraintsV {
    pub max_items_per_call: Option<usize>,
    pub max_results_per_call: Option<usize>,
    pub max_bytes_per_read: Option<usize>,
    pub max_response_bytes: Option<usize>,
    pub allowed_modes: Option<Seq<Seq<char>>>,
    pub default_response_format: Option<Seq<char>>,
    pub allowed_url_schemes: Option<Seq<Seq<char>>>,
    pub denied_url_hosts: Option<Seq<Seq<char>>>,
}

/// The limits a tool runs under. A denied host that begins with a dot
/// matches every host that ends in it.
#[derive(Debug)]
pub struct ToolConstraints {
    pub max_items_per_call: Option<usize>,
    pub max_results_per_call: Option<usize>,
    pub max_bytes_per_read: Option<usize>,
    pub max_response_bytes: Option<usize>,
    pub allowed_modes: Option<Vec<String>>,
    pub default_response_format: Option<String>,
    pub allowed_url_schemes: Option<Vec<String>>,
    pub denied_url_hosts: Option<Vec<String>>,
}

impl View for ToolConstraints {
    type V = ToolConstraintsV;

    open spec fn view(&self) -> ToolConstraintsV {
        ToolConstraintsV {
            max_items_per_call: self.max_items_per_call,
            max_results_per_call: self.max_results_per_call,
            max_bytes_per_read: self.max_bytes_per_read,
            max_response_bytes: self.max_response_bytes,
            allowed_modes: opt_text_views(self.allowed_modes),
            default_response_format: crate::llm::provider::opt_text(self.default_response_format),
            allowed_url_schemes: opt_text_views(self.allowed_url_schemes),
            denied_url_hosts: opt_text_views(self.denied_url_hosts),
        }
    }
}

impl ToolConstraintsV {
    /// No limit at all.
    pub open spec fn unlimited() -> ToolConstraintsV {
        ToolConstraintsV {
            max_items_per_call: None,
            max_results_per_call: None,
            max_bytes_per_read: None,
            max_response_bytes: None,
            allowed_modes: None,
            default_response_format: None,
            allowed_url_schemes: None,
            denied_url_hosts: None,
        }
    }
}

fn duplicate_opt_texts(items: &Option<Vec<String>>) -> (r: Option<Vec<String>>)
    ensures
        opt_text_views(r) == opt_text_views(*items),
{
    match items {
        Some(v) => Some(duplicate_texts(v)),
        None => None,
    }
}

impl ToolConstraints {
    /// No limit at all.
    pub fn unlimited() -> (r: ToolConstraints)
        ensures
            r@ == ToolConstraintsV::unlimited(),
    {
        ToolConstraints {
            max_items_per_call: None,
            max_results_per_call: None,
            max_bytes_per_read: None,
            max_response_bytes: None,
            allowed_modes: None,
            default_response_format: None,
            allowed_url_schemes: None,
            denied_url_hosts: None,
        }
    }

    /// A copy of these limits.
    pub fn duplicate(&self) -> (r: ToolConstraints)
        ensures
            r@ == self@,
    {
        ToolConstraints {
            max_items_per_call: self.max_items_per_call,
            max_results_per_call: self.max_results_per_call,
            max_bytes_per_read: self.max_bytes_per_read,
            max_response_bytes: self.max_response_bytes,
            allowed_modes: duplicate_opt_texts(&self.allowed_modes),
            default_response_format: crate::llm::provider::duplicate_opt_text(
                &self.default_response_format,
            ),
            allowed_url_schemes: duplicate_opt_texts(&self.allowed_url_schemes),
            denied_url_hosts: duplicate_opt_texts(&self.denied_url_hosts),
        }
    }
}

/// The names of a list of policy entries.
pub open spec fn policy_names(entries: Seq<(String, ToolPolicy)>) -> Seq<Seq<char>> {
    Seq::new(entries.len(), |i: int| entries[i].0@)
}

/// The policies of a list of policy entries.
pub open spec fn policy_values(entries: Seq<(String, ToolPolicy)>) -> Seq<ToolPolicy> {
    Seq::new(entries.len(), |i: int| entries[i].1)
}

/// The names of a list of constraint entries.
pub open spec fn constraint_names(entries: Seq<(String, ToolConstraints)>) -> Seq<Seq<char>> {
    Seq::new(entries.len(), |i: int| entries[i].0@)
}

/// The limits of a list of constraint entries.
pub open spec fn constraint_values(entries: Seq<(String, ToolConstraints)>) -> Seq<
    ToolConstraintsV,
> {
    Seq::new(entries.len(), |i: int| entries[i].1@)
}

/// Model of a [`ToolPolicyManager`]: the available tools, the policy table
/// as names and, index by index, their policies, and the limits table
/// likewise.
pub struct ToolPolicyManagerV {
    pub available_tools: Seq<Seq<char>>,
    pub names: Seq<Seq<char>>,
    pub policies: Seq<ToolPolicy>,
    pub constrained: Seq<Seq<char>>,
    pub constraints: Seq<ToolConstraintsV>,
}

impl ToolPolicyManagerV {
    /// The manager that knows no tool.
    pub open spec fn empty() -> ToolPolicyManagerV {
        ToolPolicyManagerV {
            available_tools: Seq::empty(),
            names: Seq::empty(),
            policies: Seq::empty(),
            constrained: Seq::empty(),
            constraints: Seq::empty(),
        }
    }

    /// The policy of a tool; a tool without an entry is prompted for.
    pub open spec fn policy_of(self, name: Seq<char>) -> ToolPolicy {
        let i = key_index_from(self.names, name, 0);
        if 0 <= i < self.names.len() && i < self.policies.len() {
            self.policies[i]
        } else {
            ToolPolicy::Prompt
        }
    }

    /// The limits of a tool, if it has any.
    pub open spec fn constraints_of(self, name: Seq<char>) -> Option<ToolConstraintsV> {
        let i = key_index_from(self.constrained, name, 0);
        if 0 <= i < self.constrained.len() && i < self.constraints.len() {
            Some(self.constraints[i])
        } else {
            None
        }
    }

    /// The manager after a tool's policy is set: its entry is replaced
    /// where it stands, or added at the end.
    pub open spec fn with_policy(self, name: Seq<char>, policy: ToolPolicy) -> ToolPolicyManagerV {
        let i = key_index_from(self.names, name, 0);
        if 0 <= i < self.names.len() && i < self.policies.len() {
            ToolPolicyManagerV { policies: self.policies.update(i, policy), ..self }
        } else {
            ToolPolicyManagerV {
                names: self.names.push(name),
                policies: self.policies.push(policy),
                ..self
            }
        }
    }

    /// The manager after a tool's limits are set: its entry is replaced
    /// where it stands, or added at the end.
    pub open spec fn with_constraints(self, name: Seq<char>, limits: ToolConstraintsV)
        -> ToolPolicyManagerV {
        let i = key_index_from(self.constrained, name, 0);
        if 0 <= i < self.constrained.len() && i < self.constraints.len() {
            ToolPolicyManagerV { constraints: self.constraints.update(i, limits), ..self }
        } else {
            ToolPolicyManagerV {
                constrained: self.constrained.push(name),
                constraints: self.constraints.push(limits),
                ..self
            }
        }
    }

    /// The manager after the set of available tools changes: the policy
    /// table has one entry per available tool, in their order, each with
    /// the policy the tool had.
    pub open spec fn with_available(self, tools: Seq<Seq<char>>) -> ToolPolicyManagerV {
        ToolPolicyManagerV {
            available_tools: tools,
            names: tools,
            policies: Seq::new(tools.len(), |i: int| self.policy_of(tools[i])),
            ..self
        }
    }

    /// The manager after every entry of the policy table is set to
    /// `policy`.
    pub open spec fn with_all(self, policy: ToolPolicy) -> ToolPolicyManagerV {
        ToolPolicyManagerV {
            policies: Seq::new(self.policies.len(), |i: int| policy),
            ..self
        }
    }
}

/// Setting a tool's policy makes it that tool's policy and changes no
/// other tool's.
pub proof fn lemma_set_policy_is_local(
    manager: ToolPolicyManagerV,
    name: Seq<char>,
    policy: ToolPolicy,
    other: Seq<char>,
)
    requires
        manager.names.len() == manager.policies.len(),
    ensures
        manager.with_policy(name, policy).policy_of(name) == policy,
        other != name ==> manager.with_policy(name, policy).policy_of(other) == manager.policy_of(
            other,
        ),
{
    let after = manager.with_policy(name, policy);
    crate::json::lemma_key_index(manager.names, name, 0);
    crate::json::lemma_key_index(manager.names, other, 0);
    let i = key_index_from(manager.names, name, 0);
    if i < manager.names.len() {
    } else {
        crate::json::lemma_key_index_after_push(manager.names, name, name, 0);
        crate::json::lemma_key_index_after_push(manager.names, name, other, 0);
    }
}

/// The policies and limits of the tools. A tool without a policy entry is
/// prompted for.
#[derive(Debug)]
pub struct ToolPolicyManager {
    pub available_tools: Vec<String>,
    pub policies: Vec<(String, ToolPolicy)>,
    pub constraints: Vec<(String, ToolConstraints)>,
}

impl View for ToolPolicyManager {
    type V = ToolPolicyManagerV;

    open spec fn view(&self) -> ToolPolicyManagerV {
        ToolPolicyManagerV {
            available_tools: text_views(self.available_tools@),
            names: policy_names(self.policies@),
            policies: policy_values(self.policies@),
            constrained: constraint_names(self.constraints@),
            constraints: constraint_values(self.constraints@),
        }
    }
}

impl ToolPolicyManager {
    /// The manager that knows no tool.
    pub fn new() -> (r: ToolPolicyManager)
        ensures
            r@ == ToolPolicyManagerV::empty(),
    {
        let r = ToolPolicyManager {
            available_tools: Vec::new(),
            policies: Vec::new(),
            constraints: Vec::new(),
        };
        assert(r@.available_tools =~= Seq::empty());
        assert(r@.names =~= Seq::empty());
        assert(r@.policies =~= Seq::empty());
        assert(r@.constrained =~= Seq::empty());
        assert(r@.constraints =~= Seq::empty());
        r
    }

    fn policy_index(&self, name: &str) -> (r: usize)
        ensures
            r == key_index_from(self@.names, name@, 0),
            r <= self.policies@.len(),
    {
        let ghost names = self@.names;
        let mut i: usize = 0;
        while i < self.policies.len()
            invariant
                i <= self.policies.len(),
                names == policy_names(self.policies@),
                key_index_from(names, name@, i as int) == key_index_from(names, name@, 0),
            decreases self.policies.len() - i,
        {
            if str_eq(self.policies[i].0.as_str(), name) {
                return i;
            }
            i += 1;
        }
        i
    }

    fn constraint_index(&self, name: &str) -> (r: usize)
        ensures
            r == key_index_from(self@.constrained, name@, 0),
            r <= self.constraints@.len(),
    {
        let ghost names = self@.constrained;
        let mut i: usize = 0;
        while i < self.constraints.len()
            invariant
                i <= self.constraints.len(),
                names == constraint_names(self.constraints@),
                key_index_from(names, name@, i as int) == key_index_from(names, name@, 0),
            decreases self.constraints.len() - i,
        {
            if str_eq(self.constraints[i].0.as_str(), name) {
                return i;
            }
            i += 1;
        }
        i
    }

    /// The policy of a tool; a tool without an entry is prompted for.
    pub fn get_policy(&self, tool_name: &str) -> (r: ToolPolicy)
        ensures
            r == self@.policy_of(tool_name@),
    {
        let i = self.policy_index(tool_name);
        if i < self.policies.len() {
            self.policies[i].1
        } else {
            ToolPolicy::Prompt
        }
    }

    /// Sets the policy of a tool.
    pub fn set_policy(&mut self, tool_name: &str, policy: ToolPolicy)
        ensures
            final(self)@ == old(self)@.with_policy(tool_name@, policy),
    {
        let ghost before = self@;
        let i = self.policy_index(tool_name);
        if i < self.policies.len() {
            self.policies.set(i, (tool_name.to_owned(), policy));
            proof {
                crate::json::lemma_key_index(before.names, tool_name@, 0);
            }
            assert(self@.names =~= before.names);
            assert(self@.policies =~= before.policies.update(i as int, policy));
        } else {
            self.policies.push((tool_name.to_owned(), policy));
            assert(self@.names =~= before.names.push(tool_name@));
            assert(self@.policies =~= before.policies.push(policy));
        }
    }

    /// The limits of a tool, if it has any.
    pub fn get_constraints(&self, tool_name: &str) -> (r: Option<&ToolConstraints>)
        ensures
            match r {
                Some(c) => self@.constraints_of(tool_name@) == Some(c@),
                None => self@.constraints_of(tool_name@) is None,
            },
    {
        let i = self.constraint_index(tool_name);
        if i < self.constraints.len() {
            Some(&self.constraints[i].1)
        } else {
            None
        }
    }

    /// Sets the limits of a tool.
    pub fn set_constraints(&mut self, tool_name: &str, limits: ToolConstraints)
        ensures
            final(self)@ == old(self)@.with_constraints(tool_name@, limits@),
    {
        let ghost before = self@;
        let i = self.constraint_index(tool_name);
        if i < self.constraints.len() {
            self.constraints.set(i, (tool_name.to_owned(), limits));
            proof {
                crate::json::lemma_key_index(before.constrained, tool_name@, 0);
            }
            assert(self@.constrained =~= before.constrained);
            assert(self@.constraints =~= before.constraints.update(i as int, limits@));
        } else {
            self.constraints.push((tool_name.to_owned(), limits));
            assert(self@.constrained =~= before.constrained.push(tool_name@));
            assert(self@.constraints =~= before.constraints.push(limits@));
        }
    }

    /// Takes a new set of available tools: the policy table gets one entry
    /// per tool, each with the policy the tool had.
    pub fn update_available_tools(&mut self, tools: Vec<String>)
        ensures
            final(self)@ == old(self)@.with_available(text_views(tools@)),
    {
        let ghost before = self@;
        let ghost names = text_views(tools@);
        let mut table: Vec<(String, ToolPolicy)> = Vec::new();
        let mut i: usize = 0;
        while i < tools.len()
            invariant
                i <= tools.len(),
                self@ == before,
                names == text_views(tools@),
                table@.len() == i,
                forall|k: int|
                    0 <= k < i ==> (#[trigger] table@[k]).0@ == names[k] && table@[k].1
                        == before.policy_of(names[k]),
            decreases tools.len() - i,
        {
            let policy = self.get_policy(tools[i].as_str());
            table.push((tools[i].clone(), policy));
            i += 1;
        }
        self.policies = table;
        self.available_tools = tools;
        assert(self@.names =~= names);
        assert(self@.policies =~= Seq::new(names.len(), |i: int| before.policy_of(names[i])));
    }

    fn set_all(&mut self, policy: ToolPolicy)
        ensures
            final(self)@ == old(self)@.with_all(policy),
    {
        let ghost before = self@;
        let mut i: usize = 0;
        while i < self.policies.len()
            invariant
                i <= self.policies.len(),
                self.policies@.len() == old(self).policies@.len(),
                self.available_tools == old(self).available_tools,
                self.constraints == old(self).constraints,
                forall|k: int| 0 <= k < self.policies@.len() ==> (#[trigger] self.policies@[k]).0@
                    == old(self).policies@[k].0@,
                forall|k: int| 0 <= k < i ==> (#[trigger] self.policies@[k]).1 == policy,
            decreases self.policies.len() - i,
        {
            let name = self.policies[i].0.clone();
            self.policies.set(i, (name, policy));
            i += 1;
        }
        assert(self@.names =~= before.names);
        assert(self@.policies =~= Seq::new(before.policies.len(), |i: int| policy));
    }

    /// Sets every tool to be prompted for.
    pub fn reset_all_to_prompt(&mut self)
        ensures
            final(self)@ == old(self)@.with_all(ToolPolicy::Prompt),
    {
        self.set_all(ToolPolicy::Prompt);
    }

    /// Allows every tool.
    pub fn allow_all_tools(&mut self)
        ensures
            final(self)@ == old(self)@.with_all(ToolPolicy::Allow),
    {
        self.set_all(ToolPolicy::Allow);
    }

    /// Denies every tool.
    pub fn deny_all_tools(&mut self)
        ensures
            final(self)@ == old(self)@.with_all(ToolPolicy::Deny),
    {
        self.set_all(ToolPolicy::Deny);
    }
}

} // verus!
