//! Firewall rules that route traffic between the virtual interface and a
//! physical one.
//!
//! Nothing here runs the firewall tool. The library says which command
//! comes next and what its outcome means; the caller runs the command and
//! reports how it ended.

use vstd::prelude::*;
use vstd::string::StringExecFns;

verus! {

/// One firewall rule: the table it belongs to, and the rule itself as the
/// tool's command line writes it, in words parted by single spaces.
#[derive(Debug)]
pub struct IpTablesRule {
    table: String,
    rule: String,
}

/// A rule as a pair of texts: its table, then its words.
pub type RuleView = (Seq<char>, Seq<char>);

impl View for IpTablesRule {
    type V = RuleView;

    closed spec fn view(&self) -> RuleView {
        (self.table@, self.rule@)
    }
}

impl IpTablesRule {
    /// The rule with these words in this table.
    pub fn new(table: String, rule: String) -> (r: IpTablesRule)
        ensures
            r@ == (table@, rule@),
    {
        IpTablesRule { table, rule }
    }

    /// The table that the rule belongs to.
    pub fn table(&self) -> (table: &str)
        ensures
            table@ == self@.0,
    {
        self.table.as_str()
    }

    /// The words of the rule.
    pub fn rule(&self) -> (rule: &str)
        ensures
            rule@ == self@.1,
    {
        self.rule.as_str()
    }
}

/// What the firewall tool is asked to do with a rule.
#[derive(Debug, Clone, Copy, PartialEq, Eq, Structural)]
pub enum RuleOp {
    /// Ask whether the rule exists (`-C`).
    Check,
    /// Add the rule at the end of its chain (`-A`).
    Append,
    /// Remove the rule (`-D`).
    Delete,
}

/// How one run of the firewall tool ended.
#[derive(Debug, Clone, Copy, PartialEq, Eq, Structural)]
pub enum CommandOutcome {
    /// The tool ran and reported success.
    Succeeded,
    /// The tool ran and reported failure.
    Failed,
    /// The tool could not be started or waited for.
    NotRun,
}

/// Why the rules could not be installed or removed.
#[derive(Debug, Clone, Copy, PartialEq, Eq, Structural)]
pub enum RoutingSetupError {
    /// The firewall tool could not be run.
    Invocation,
    /// The firewall tool refused to change a rule.
    RuleRejected,
}

/// The texts of a sequence of strings.
pub open spec fn texts(strings: Seq<String>) -> Seq<Seq<char>> {
    Seq::new(strings.len(), |i: int| strings[i]@)
}

/// The rules of a sequence, each as its table and its words.
pub open spec fn rule_views(rules: Seq<IpTablesRule>) -> Seq<RuleView> {
    Seq::new(rules.len(), |i: int| rules[i]@)
}

/// The pieces of `text` between the occurrences of `sep`, in order. A text
/// without `sep` is one piece, and between two `sep` in a row lies an empty
/// piece.
pub open spec fn split_on(text: Seq<char>, sep: char) -> Seq<Seq<char>>
    decreases text.len(),
{
    if text.len() == 0 {
        seq![Seq::<char>::empty()]
    } else {
        let before = split_on(text.drop_last(), sep);
        if text.last() == sep {
            before.push(Seq::<char>::empty())
        } else {
            before.drop_last().push(before.last().push(text.last()))
        }
    }
}

/// The flag that selects an operation.
pub open spec fn op_flag(op: RuleOp) -> Seq<char> {
    match op {
        RuleOp::Check => "-C"@,
        RuleOp::Append => "-A"@,
        RuleOp::Delete => "-D"@,
    }
}

/// The arguments of the firewall tool for one operation on one rule: the
/// table, the operation, then the words of the rule.
pub open spec fn command_line(op: RuleOp, rule: RuleView) -> Seq<Seq<char>> {
    seq!["-t"@, rule.0, op_flag(op)] + split_on(rule.1, ' ')
}

/// Splits a text at each space.
pub fn split_words(text: &str) -> (words: Vec<String>)
    ensures
        texts(words@) == split_on(text@, ' '),
{
    let n: usize = text.unicode_len();
    let mut words: Vec<String> = Vec::new();
    let mut start: usize = 0;
    let mut i: usize = 0;
    assert(text@.take(0) == Seq::<char>::empty());
    while i < n
        invariant
            start <= i <= n,
            n == text@.len(),
            split_on(text@.take(i as int), ' ') == texts(words@).push(
                text@.subrange(start as int, i as int),
            ),
        decreases n - i,
    {
        let ghost piece = text@.subrange(start as int, i as int);
        let ghost upto = text@.take(i + 1);
        assert(upto.drop_last() == text@.take(i as int));
        let c: char = text.get_char(i);
        if c == ' ' {
            words.push(text.substring_char(start, i).to_owned());
            start = i + 1;
            assert(text@.subrange(start as int, i + 1) == Seq::<char>::empty());
        } else {
            assert(piece.push(text@[i as int]) == text@.subrange(start as int, i + 1));
        }
        i += 1;
    }
    assert(text@.take(n as int) == text@);
    words.push(text.substring_char(start, n).to_owned());
    words
}

/// The arguments to run the firewall tool with, for one operation on one
/// rule.
pub fn iptables_args(op: RuleOp, rule: &IpTablesRule) -> (args: Vec<String>)
    ensures
        texts(args@) == command_line(op, rule@),
{
    let mut args: Vec<String> = Vec::new();
    args.push("-t".to_owned());
    args.push(rule.table.clone());
    let flag = match op {
        RuleOp::Check => "-C",
        RuleOp::Append => "-A",
        RuleOp::Delete => "-D",
    };
    args.push(flag.to_owned());
    let mut words = split_words(rule.rule.as_str());
    args.append(&mut words);
    args
}

/// Which command of the protocol that adds a rule was run last.
#[derive(Debug, Clone, Copy, PartialEq, Eq, Structural)]
pub enum AddPhase {
    /// The rule was looked for.
    Checking,
    /// The rule was appended.
    Appending,
}

/// What follows a command of the protocol that adds a rule.
#[derive(Debug, Clone, Copy, PartialEq, Eq, Structural)]
pub enum AddRuleStep {
    /// The rule is not there yet: append it.
    Append,
    /// The rule is in place, found or appended.
    Installed,
    /// The rule could not be installed.
    Failed(RoutingSetupError),
}

/// The protocol that adds a rule looks for it first. A rule that is found is
/// left alone. One that is not found is appended, and has to be accepted. A
/// tool that cannot be run ends the protocol at either command.
pub open spec fn add_rule_next(phase: AddPhase, outcome: CommandOutcome) -> AddRuleStep {
    match outcome {
        CommandOutcome::NotRun => AddRuleStep::Failed(RoutingSetupError::Invocation),
        CommandOutcome::Succeeded => AddRuleStep::Installed,
        CommandOutcome::Failed => match phase {
            AddPhase::Checking => AddRuleStep::Append,
            AddPhase::Appending => AddRuleStep::Failed(RoutingSetupError::RuleRejected),
        },
    }
}

/// A rule is removed by one command, which has to succeed.
pub open spec fn remove_rule_result(outcome: CommandOutcome) -> Result<(), RoutingSetupError> {
    match outcome {
        CommandOutcome::Succeeded => Ok(()),
        CommandOutcome::Failed => Err(RoutingSetupError::RuleRejected),
        CommandOutcome::NotRun => Err(RoutingSetupError::Invocation),
    }
}

/// Decides how adding a rule goes on after the command of `phase` ended with
/// `outcome`.
pub fn iptables_add_rule(phase: AddPhase, outcome: CommandOutcome) -> (step: AddRuleStep)
    ensures
        step == add_rule_next(phase, outcome),
{
    match outcome {
        CommandOutcome::NotRun => AddRuleStep::Failed(RoutingSetupError::Invocation),
        CommandOutcome::Succeeded => AddRuleStep::Installed,
        CommandOutcome::Failed => match phase {
            AddPhase::Checking => AddRuleStep::Append,
            AddPhase::Appending => AddRuleStep::Failed(RoutingSetupError::RuleRejected),
        },
    }
}

/// Decides whether a rule was removed, from the outcome of the command that
/// deletes it.
pub fn iptables_remove_rule(outcome: CommandOutcome) -> (result: Result<(), RoutingSetupError>)
    ensures
        result == remove_rule_result(outcome),
{
    match outcome {
        CommandOutcome::Succeeded => Ok(()),
        CommandOutcome::Failed => Err(RoutingSetupError::RuleRejected),
        CommandOutcome::NotRun => Err(RoutingSetupError::Invocation),
    }
}

/// The rule that lets traffic of the virtual interface out by the main one.
pub open spec fn forward_out_rule(main_interface: Seq<char>, vpn_interface: Seq<char>) -> RuleView {
    ("filter"@, "FORWARD -i "@ + vpn_interface + " -o "@ + main_interface + " -j ACCEPT"@)
}

/// The rule that lets the answers back in to the virtual interface.
pub open spec fn forward_back_rule(
    main_interface: Seq<char>,
    vpn_interface: Seq<char>,
) -> RuleView {
    (
        "filter"@,
        "FORWARD -i "@ + main_interface + " -o "@ + vpn_interface
            + " -m state --state RELATED,ESTABLISHED -j ACCEPT"@,
    )
}

/// The rule that masquerades what leaves by the main interface.
pub open spec fn masquerade_rule(main_interface: Seq<char>) -> RuleView {
    ("nat"@, "POSTROUTING -o "@ + main_interface + " -j MASQUERADE"@)
}

/// The rules that route between the two interfaces, in the order in which
/// they are installed.
pub open spec fn route_rules(main_interface: Seq<char>, vpn_interface: Seq<char>) -> Seq<RuleView> {
    seq![
        forward_out_rule(main_interface, vpn_interface),
        forward_back_rule(main_interface, vpn_interface),
        masquerade_rule(main_interface),
    ]
}

/// The progress of installing a list of rules, one after the other.
pub struct RoutingSetupView {
    /// The rules to install, in order.
    pub rules: Seq<RuleView>,
    /// The rules that this installation itself appended, in order. A rule
    /// that was found in place is not among them.
    pub installed: Seq<RuleView>,
    /// How many rules are done with.
    pub next: nat,
    /// Where the rule at `next` is in its protocol.
    pub phase: AddPhase,
    /// The error that ended the installation, if one did.
    pub failed: Option<RoutingSetupError>,
}

impl RoutingSetupView {
    /// No more rules are done with than there are.
    pub open spec fn wf(self) -> bool {
        self.next <= self.rules.len()
    }

    /// No command is left: a rule failed, or all are in place.
    pub open spec fn done(self) -> bool {
        self.failed is Some || self.next >= self.rules.len()
    }

    /// The command to run now.
    pub open spec fn command(self) -> Option<(RuleOp, RuleView)> {
        if self.done() {
            None
        } else {
            Some(
                (
                    match self.phase {
                        AddPhase::Checking => RuleOp::Check,
                        AddPhase::Appending => RuleOp::Append,
                    },
                    self.rules[self.next as int],
                ),
            )
        }
    }

    /// The progress after the command to run now ended with `outcome`.
    pub open spec fn record(self, outcome: CommandOutcome) -> RoutingSetupView {
        if self.done() {
            self
        } else {
            match add_rule_next(self.phase, outcome) {
                AddRuleStep::Append => RoutingSetupView { phase: AddPhase::Appending, ..self },
                AddRuleStep::Installed => RoutingSetupView {
                    installed: match self.phase {
                        AddPhase::Checking => self.installed,
                        AddPhase::Appending => self.installed.push(self.rules[self.next as int]),
                    },
                    next: self.next + 1,
                    phase: AddPhase::Checking,
                    ..self
                },
                AddRuleStep::Failed(e) => RoutingSetupView { failed: Some(e), ..self },
            }
        }
    }

    /// What the installation comes to: the error that ended it, or the rules
    /// that it appended itself, which are those to remove later.
    pub open spec fn result(self) -> Result<Seq<RuleView>, RoutingSetupError> {
        match self.failed {
            Some(e) => Err(e),
            None => Ok(self.installed),
        }
    }
}

/// The progress before the first command.
pub open spec fn setup_start(rules: Seq<RuleView>) -> RoutingSetupView {
    RoutingSetupView {
        rules,
        installed: Seq::empty(),
        next: 0,
        phase: AddPhase::Checking,
        failed: None,
    }
}

/// Recording an outcome keeps the progress of an installation well formed.
pub proof fn lemma_setup_record_keeps_wf(setup: RoutingSetupView, outcome: CommandOutcome)
    requires
        setup.wf(),
    ensures
        setup.record(outcome).wf(),
{
}

/// Installs a list of rules, command by command.
pub struct RoutingSetup {
    rules: Vec<IpTablesRule>,
    installed: Vec<IpTablesRule>,
    next: usize,
    phase: AddPhase,
    failed: Option<RoutingSetupError>,
}

impl View for RoutingSetup {
    type V = RoutingSetupView;

    closed spec fn view(&self) -> RoutingSetupView {
        RoutingSetupView {
            rules: rule_views(self.rules@),
            installed: rule_views(self.installed@),
            next: self.next as nat,
            phase: self.phase,
            failed: self.failed,
        }
    }
}

/// The result of an installation, each rule as its table and its words.
pub open spec fn setup_result_view(
    result: Result<Vec<IpTablesRule>, RoutingSetupError>,
) -> Result<Seq<RuleView>, RoutingSetupError> {
    match result {
        Ok(rules) => Ok(rule_views(rules@)),
        Err(e) => Err(e),
    }
}

impl RoutingSetup {
    /// Whether no command is left to run.
    pub fn is_done(&self) -> (done: bool)
        ensures
            done == self@.done(),
    {
        self.failed.is_some() || self.next >= self.rules.len()
    }

    /// The command to run now, if one is left: what it does to its rule, and
    /// the arguments to run the firewall tool with.
    pub fn next_command(&self) -> (command: Option<(RuleOp, Vec<String>)>)
        ensures
            match self@.command() {
                Some((op, rule)) => command matches Some((o, args)) && o == op && texts(args@)
                    == command_line(op, rule),
                None => command is None,
            },
    {
        if self.is_done() {
            return None;
        }
        let op = match self.phase {
            AddPhase::Checking => RuleOp::Check,
            AddPhase::Appending => RuleOp::Append,
        };
        Some((op, iptables_args(op, &self.rules[self.next])))
    }

    /// Takes the outcome of the command that `next_command` gave. Where no
    /// command was left, nothing changes.
    pub fn record(&mut self, outcome: CommandOutcome)
        ensures
            final(self)@ == old(self)@.record(outcome),
    {
        if self.failed.is_some() || self.next >= self.rules.len() {
            return ;
        }
        match iptables_add_rule(self.phase, outcome) {
            AddRuleStep::Append => {
                self.phase = AddPhase::Appending;
            },
            AddRuleStep::Installed => {
                match self.phase {
                    AddPhase::Checking => {},
                    AddPhase::Appending => {
                        let appended = IpTablesRule {
                            table: self.rules[self.next].table.clone(),
                            rule: self.rules[self.next].rule.clone(),
                        };
                        let ghost before = rule_views(self.installed@);
                        self.installed.push(appended);
                        assert(rule_views(self.installed@) == before.push(appended@));
                    },
                }
                self.next = self.next + 1;
                self.phase = AddPhase::Checking;
            },
            AddRuleStep::Failed(e) => {
                self.failed = Some(e);
            },
        }
    }

    /// Ends the installation: the error that stopped it, or the rules that
    /// this installation appended itself. Those are the rules that the caller
    /// has to remove later; a rule that was in place before is not handed
    /// back.
    pub fn finish(self) -> (result: Result<Vec<IpTablesRule>, RoutingSetupError>)
        requires
            self@.done(),
        ensures
            setup_result_view(result) == self@.result(),
    {
        match self.failed {
            Some(e) => Err(e),
            None => Ok(self.installed),
        }
    }
}

/// Plans the routing between the main interface and the virtual one: the
/// rules of `route_rules`, none of them run yet.
pub fn iptables_route_to_interface(main_interface: &str, vpn_interface: &str) -> (setup:
    RoutingSetup)
    ensures
        setup@ == setup_start(route_rules(main_interface@, vpn_interface@)),
{
    let mut forward_out = "FORWARD -i ".to_owned();
    forward_out.append(vpn_interface);
    forward_out.append(" -o ");
    forward_out.append(main_interface);
    forward_out.append(" -j ACCEPT");

    let mut forward_back = "FORWARD -i ".to_owned();
    forward_back.append(main_interface);
    forward_back.append(" -o ");
    forward_back.append(vpn_interface);
    forward_back.append(" -m state --state RELATED,ESTABLISHED -j ACCEPT");

    let mut masquerade = "POSTROUTING -o ".to_owned();
    masquerade.append(main_interface);
    masquerade.append(" -j MASQUERADE");

    let mut rules: Vec<IpTablesRule> = Vec::new();
    rules.push(IpTablesRule { table: "filter".to_owned(), rule: forward_out });
    rules.push(IpTablesRule { table: "filter".to_owned(), rule: forward_back });
    rules.push(IpTablesRule { table: "nat".to_owned(), rule: masquerade });
    assert(rule_views(rules@) == route_rules(main_interface@, vpn_interface@));
    let installed: Vec<IpTablesRule> = Vec::new();
    assert(rule_views(installed@) == Seq::<RuleView>::empty());
    RoutingSetup {
        rules,
        installed,
        next: 0,
        phase: AddPhase::Checking,
        failed: None,
    }
}

/// The progress of removing a list of rules, one after the other.
pub struct RoutingCleanupView {
    /// The rules to remove, in order.
    pub rules: Seq<RuleView>,
    /// How many rules are removed.
    pub next: nat,
    /// The error that ended the removal, if one did.
    pub failed: Option<RoutingSetupError>,
}

impl RoutingCleanupView {
    /// No more rules are removed than there are.
    pub open spec fn wf(self) -> bool {
        self.next <= self.rules.len()
    }

    /// No command is left: a rule failed, or all are removed.
    pub open spec fn done(self) -> bool {
        self.failed is Some || self.next >= self.rules.len()
    }

    /// The command to run now.
    pub open spec fn command(self) -> Option<(RuleOp, RuleView)> {
        if self.done() {
            None
        } else {
            Some((RuleOp::Delete, self.rules[self.next as int]))
        }
    }

    /// The progress after the command to run now ended with `outcome`.
    pub open spec fn record(self, outcome: CommandOutcome) -> RoutingCleanupView {
        if self.done() {
            self
        } else {
            match remove_rule_result(outcome) {
                Ok(_) => RoutingCleanupView { next: self.next + 1, ..self },
                Err(e) => RoutingCleanupView { failed: Some(e), ..self },
            }
        }
    }

    /// What the removal comes to.
    pub open spec fn result(self) -> Result<(), RoutingSetupError> {
        match self.failed {
            Some(e) => Err(e),
            None => Ok(()),
        }
    }
}

/// Recording an outcome keeps the progress of a removal well formed.
pub proof fn lemma_cleanup_record_keeps_wf(cleanup: RoutingCleanupView, outcome: CommandOutcome)
    requires
        cleanup.wf(),
    ensures
        cleanup.record(outcome).wf(),
{
}

/// Removes a list of rules, command by command.
pub struct RoutingCleanup {
    rules: Vec<IpTablesRule>,
    next: usize,
    failed: Option<RoutingSetupError>,
}

impl View for RoutingCleanup {
    type V = RoutingCleanupView;

    closed spec fn view(&self) -> RoutingCleanupView {
        RoutingCleanupView {
            rules: rule_views(self.rules@),
            next: self.next as nat,
            failed: self.failed,
        }
    }
}

impl RoutingCleanup {
    /// Whether no command is left to run.
    pub fn is_done(&self) -> (done: bool)
        ensures
            done == self@.done(),
    {
        self.failed.is_some() || self.next >= self.rules.len()
    }

    /// The command to run now, if one is left: what it does to its rule, and
    /// the arguments to run the firewall tool with.
    pub fn next_command(&self) -> (command: Option<(RuleOp, Vec<String>)>)
        ensures
            match self@.command() {
                Some((op, rule)) => command matches Some((o, args)) && o == op && texts(args@)
                    == command_line(op, rule),
                None => command is None,
            },
    {
        if self.is_done() {
            return None;
        }
        Some((RuleOp::Delete, iptables_args(RuleOp::Delete, &self.rules[self.next])))
    }

    /// Takes the outcome of the command that `next_command` gave. Where no
    /// command was left, nothing changes.
    pub fn record(&mut self, outcome: CommandOutcome)
        ensures
            final(self)@ == old(self)@.record(outcome),
    {
        if self.failed.is_some() || self.next >= self.rules.len() {
            return ;
        }
        match iptables_remove_rule(outcome) {
            Ok(_) => {
                self.next = self.next + 1;
            },
            Err(e) => {
                self.failed = Some(e);
            },
        }
    }

    /// Ends the removal: whether every rule was removed, or the error of the
    /// first that was not.
    pub fn finish(self) -> (result: Result<(), RoutingSetupError>)
        requires
            self@.done(),
        ensures
            result == self@.result(),
    {
        match self.failed {
            Some(e) => Err(e),
            None => Ok(()),
        }
    }
}

/// The progress before the first command.
pub open spec fn cleanup_start(rules: Seq<RuleView>) -> RoutingCleanupView {
    RoutingCleanupView { rules, next: 0, failed: None }
}

/// Plans the removal of `rules`, in their order; none of them is touched yet.
/// The removal stops at the first rule that cannot be removed.
pub fn iptables_cleanup(rules: Vec<IpTablesRule>) -> (cleanup: RoutingCleanup)
    ensures
        cleanup@ == cleanup_start(rule_views(rules@)),
{
    RoutingCleanup { rules, next: 0, failed: None }
}

} // verus!
