//! The identification as a sequence of stages. At each stage the caller
//! carries out the action that the stage asks for and hands its outcome
//! back; the pipeline decides what is reported and what comes next.

use crate::address::NetworkAddress;
use crate::gateway::{locate_gateway, located_gateway};
use crate::hostname::{
    directory_answer, directory_result, netbios_answer, netbios_result, resolved_name,
};
use crate::neighbor::{probe_sent, probe_was_sent, resolve_hardware, resolved_hardware};
use crate::outcome::{Failure, Outcome, OutcomeView};
use crate::text::option_text;
use crate::vendor::{is_success, vendor_answer, vendor_name, vendor_url, vendor_url_of};
use vstd::prelude::*;

verus! {

/// A stage of the identification: the operation whose outcome is awaited,
/// with what is known so far and still needed.
#[derive(Debug, PartialEq, Eq)]
pub enum Stage {
    /// The routing table is being read.
    RoutingTable,
    /// The gateway is being probed.
    Probe { gateway: NetworkAddress },
    /// The neighbor cache is being read.
    NeighborCache { gateway: NetworkAddress },
    /// The directory service is being asked for the gateway's name.
    DirectoryLookup { gateway: NetworkAddress, hardware: String },
    /// A NetBIOS name query is being made for the gateway's name.
    NetbiosLookup { gateway: NetworkAddress, hardware: String },
    /// The vendor of the hardware address is being looked up.
    VendorLookup { hardware: String },
    /// The identification is complete.
    Finished,
    /// The identification has failed.
    Failed { failure: Failure },
}

/// A stage as a mathematical value.
pub enum StageView {
    RoutingTable,
    Probe { gateway: NetworkAddress },
    NeighborCache { gateway: NetworkAddress },
    DirectoryLookup { gateway: NetworkAddress, hardware: Seq<char> },
    NetbiosLookup { gateway: NetworkAddress, hardware: Seq<char> },
    VendorLookup { hardware: Seq<char> },
    Finished,
    Failed { failure: Failure },
}

impl View for Stage {
    type V = StageView;

    open spec fn view(&self) -> StageView {
        match self {
            Stage::RoutingTable => StageView::RoutingTable,
            Stage::Probe { gateway } => StageView::Probe { gateway: *gateway },
            Stage::NeighborCache { gateway } => StageView::NeighborCache { gateway: *gateway },
            Stage::DirectoryLookup { gateway, hardware } => StageView::DirectoryLookup {
                gateway: *gateway,
                hardware: hardware@,
            },
            Stage::NetbiosLookup { gateway, hardware } => StageView::NetbiosLookup {
                gateway: *gateway,
                hardware: hardware@,
            },
            Stage::VendorLookup { hardware } => StageView::VendorLookup { hardware: hardware@ },
            Stage::Finished => StageView::Finished,
            Stage::Failed { failure } => StageView::Failed { failure: *failure },
        }
    }
}

/// What the caller is to do at a stage.
#[derive(Debug, PartialEq, Eq)]
pub enum Action {
    /// Run the system command `command`, its program first and its
    /// arguments after it, and hand back what it wrote and how it exited.
    Run { command: Vec<String> },
    /// Send one GET request to the address `url`, without a body, and hand
    /// back the status and the text of the response.
    Fetch { url: String },
    /// Stop: the identification is complete.
    Finish,
    /// Stop abnormally: the identification has failed.
    Abort { failure: Failure },
}

/// An action as a mathematical value.
pub enum ActionView {
    Run { command: Seq<Seq<char>> },
    Fetch { url: Seq<char> },
    Finish,
    Abort { failure: Failure },
}

impl View for Action {
    type V = ActionView;

    open spec fn view(&self) -> ActionView {
        match self {
            Action::Run { command } => ActionView::Run { command: command.deep_view() },
            Action::Fetch { url } => ActionView::Fetch { url: url@ },
            Action::Finish => ActionView::Finish,
            Action::Abort { failure } => ActionView::Abort { failure: *failure },
        }
    }
}

/// The result of one step: the stage that follows, and the line to report,
/// if the step has one.
#[derive(Debug, PartialEq, Eq)]
pub struct Step {
    pub stage: Stage,
    pub line: Option<String>,
}

/// The line that reports the gateway's address.
pub open spec fn address_line(gateway: NetworkAddress) -> Seq<char> {
    "IP router: "@ + gateway.text()
}

/// The line that reports the gateway's hardware address.
pub open spec fn hardware_line(hardware: Seq<char>) -> Seq<char> {
    "MAC router: "@ + hardware
}

/// The line that reports the gateway's host name, or that it is unknown.
pub open spec fn name_line(name: Option<Seq<char>>) -> Seq<char> {
    match name {
        Some(name) => "Hostname router: "@ + name,
        None => "Hostname router: Unknown"@,
    }
}

/// The line that reports the gateway's vendor, or that it could not be
/// determined.
pub open spec fn vendor_line(vendor: Option<Seq<char>>) -> Seq<char> {
    match vendor {
        Some(vendor) => "Router vendor: "@ + vendor,
        None => "Unable to determine vendor by MAC"@,
    }
}

/// The command that inspects the routing table.
pub open spec fn routing_table_command() -> Seq<Seq<char>> {
    seq!["ip"@, "route"@]
}

/// The command that sends a single echo request to a host and waits one
/// second for the reply.
pub open spec fn probe_command(address: NetworkAddress) -> Seq<Seq<char>> {
    seq!["ping"@, "-c"@, "1"@, "-W"@, "1"@, address.text()]
}

/// The command that inspects the neighbor cache.
pub open spec fn neighbor_cache_command() -> Seq<Seq<char>> {
    seq!["ip"@, "neigh"@]
}

/// The command that asks the directory service for the hosts entry of an
/// address.
pub open spec fn directory_command(address: NetworkAddress) -> Seq<Seq<char>> {
    seq!["getent"@, "hosts"@, address.text()]
}

/// The command that makes a NetBIOS name query against an address.
pub open spec fn netbios_command(address: NetworkAddress) -> Seq<Seq<char>> {
    seq!["nmblookup"@, "-A"@, address.text()]
}

/// What the caller is to do at a stage.
pub open spec fn action_of(stage: StageView) -> ActionView {
    match stage {
        StageView::RoutingTable => ActionView::Run { command: routing_table_command() },
        StageView::Probe { gateway } => ActionView::Run { command: probe_command(gateway) },
        StageView::NeighborCache { .. } => ActionView::Run { command: neighbor_cache_command() },
        StageView::DirectoryLookup { gateway, .. } => ActionView::Run {
            command: directory_command(gateway),
        },
        StageView::NetbiosLookup { gateway, .. } => ActionView::Run {
            command: netbios_command(gateway),
        },
        StageView::VendorLookup { hardware } => ActionView::Fetch { url: vendor_url_of(hardware) },
        StageView::Finished => ActionView::Finish,
        StageView::Failed { failure } => ActionView::Abort { failure },
    }
}

/// The stage that follows `stage` once its action had the outcome
/// `outcome`.
pub open spec fn next_stage(stage: StageView, outcome: OutcomeView) -> StageView {
    match stage {
        StageView::RoutingTable => match located_gateway(outcome) {
            Ok(gateway) => StageView::Probe { gateway },
            Err(failure) => StageView::Failed { failure },
        },
        StageView::Probe { gateway } => if probe_sent(outcome) {
            StageView::NeighborCache { gateway }
        } else {
            StageView::Failed { failure: Failure::HardwareAddressNotFound }
        },
        StageView::NeighborCache { gateway } => match resolved_hardware(outcome, gateway) {
            Ok(hardware) => StageView::DirectoryLookup { gateway, hardware },
            Err(failure) => StageView::Failed { failure },
        },
        StageView::DirectoryLookup { gateway, hardware } => match directory_answer(outcome) {
            Some(_) => StageView::VendorLookup { hardware },
            None => StageView::NetbiosLookup { gateway, hardware },
        },
        StageView::NetbiosLookup { hardware, .. } => StageView::VendorLookup { hardware },
        StageView::VendorLookup { .. } => StageView::Finished,
        StageView::Finished => StageView::Finished,
        StageView::Failed { failure } => StageView::Failed { failure },
    }
}

/// The line to report once the action of `stage` had the outcome `outcome`,
/// if there is one.
pub open spec fn reported_line(stage: StageView, outcome: OutcomeView) -> Option<Seq<char>> {
    match stage {
        StageView::RoutingTable => match located_gateway(outcome) {
            Ok(gateway) => Some(address_line(gateway)),
            Err(_) => None,
        },
        StageView::Probe { .. } => None,
        StageView::NeighborCache { gateway } => match resolved_hardware(outcome, gateway) {
            Ok(hardware) => Some(hardware_line(hardware)),
            Err(_) => None,
        },
        StageView::DirectoryLookup { .. } => match directory_answer(outcome) {
            Some(name) => Some(name_line(Some(name))),
            None => None,
        },
        StageView::NetbiosLookup { .. } => Some(name_line(netbios_answer(outcome))),
        StageView::VendorLookup { .. } => Some(vendor_line(vendor_answer(outcome))),
        StageView::Finished => None,
        StageView::Failed { .. } => None,
    }
}

/// The number of steps that a stage can still be followed by.
pub open spec fn steps_left(stage: StageView) -> nat {
    match stage {
        StageView::RoutingTable => 6,
        StageView::Probe { .. } => 5,
        StageView::NeighborCache { .. } => 4,
        StageView::DirectoryLookup { .. } => 3,
        StageView::NetbiosLookup { .. } => 2,
        StageView::VendorLookup { .. } => 1,
        StageView::Finished => 0,
        StageView::Failed { .. } => 0,
    }
}

/// Appends a word to a command line.
fn push_word(command: &mut Vec<String>, word: &str)
    ensures
        final(command).deep_view() == old(command).deep_view().push(word@),
{
    command.push(String::from_str(word));
    assert(command.deep_view() =~= old(command).deep_view().push(word@));
}

/// The words of a command line: the given words and, after them, the text
/// of the address that the command is about, if it is about one.
spec fn command_words(words: Seq<&str>, target: Option<NetworkAddress>) -> Seq<Seq<char>> {
    let texts = words.map_values(|word: &str| word@);
    match target {
        Some(address) => texts.push(address.text()),
        None => texts,
    }
}

/// The command line with the given words.
fn command_line(words: Vec<&str>, target: Option<NetworkAddress>) -> (command: Vec<String>)
    ensures
        command.deep_view() == command_words(words@, target),
{
    let ghost texts = words@.map_values(|word: &str| word@);
    let mut command: Vec<String> = Vec::new();
    let mut i: usize = 0;
    assert(command.deep_view() =~= texts.take(0));
    while i < words.len()
        invariant
            i <= words.len(),
            texts == words@.map_values(|word: &str| word@),
            command.deep_view() == texts.take(i as int),
        decreases words.len() - i,
    {
        push_word(&mut command, words[i]);
        assert(texts.take(i as int).push(words@[i as int]@) =~= texts.take(i + 1));
        i += 1;
    }
    assert(texts.take(i as int) =~= texts);
    match target {
        Some(address) => {
            let ghost before = command.deep_view();
            command.push(address.to_text());
            assert(command.deep_view() =~= before.push(address.text()));
        },
        None => {},
    }
    command
}

/// A line made of a label and a text after it.
fn labelled(label: &str, text: &str) -> (line: String)
    ensures
        line@ == label@ + text@,
{
    let mut line = String::from_str(label);
    line.append(text);
    line
}

impl Stage {
    /// The stage at which every identification starts.
    pub fn start() -> (stage: Stage)
        ensures
            stage@ == StageView::RoutingTable,
    {
        Stage::RoutingTable
    }

    /// What the caller is to do at this stage.
    pub fn action(&self) -> (action: Action)
        ensures
            action@ == action_of(self@),
    {
        match self {
            Stage::RoutingTable => {
                let command = command_line(vec!["ip", "route"], None);
                assert(command.deep_view() =~= routing_table_command());
                Action::Run { command }
            },
            Stage::Probe { gateway } => {
                let command = command_line(vec!["ping", "-c", "1", "-W", "1"], Some(*gateway));
                assert(command.deep_view() =~= probe_command(*gateway));
                Action::Run { command }
            },
            Stage::NeighborCache { .. } => {
                let command = command_line(vec!["ip", "neigh"], None);
                assert(command.deep_view() =~= neighbor_cache_command());
                Action::Run { command }
            },
            Stage::DirectoryLookup { gateway, .. } => {
                let command = command_line(vec!["getent", "hosts"], Some(*gateway));
                assert(command.deep_view() =~= directory_command(*gateway));
                Action::Run { command }
            },
            Stage::NetbiosLookup { gateway, .. } => {
                let command = command_line(vec!["nmblookup", "-A"], Some(*gateway));
                assert(command.deep_view() =~= netbios_command(*gateway));
                Action::Run { command }
            },
            Stage::VendorLookup { hardware } => Action::Fetch {
                url: vendor_url(hardware.as_str()),
            },
            Stage::Finished => Action::Finish,
            Stage::Failed { failure } => Action::Abort { failure: *failure },
        }
    }

    /// Takes the outcome of this stage's action and gives the stage that
    /// follows, with the line to report. An outcome of another kind than
    /// the action produces counts as an operation that could not be
    /// carried out.
    pub fn advance(self, outcome: &Outcome) -> (step: Step)
        ensures
            step.stage@ == next_stage(self@, outcome@),
            option_text(step.line) == reported_line(self@, outcome@),
            steps_left(self@) > 0 ==> steps_left(step.stage@) < steps_left(self@),
    {
        match self {
            Stage::RoutingTable => match locate_gateway(outcome) {
                Ok(gateway) => Step {
                    stage: Stage::Probe { gateway },
                    line: Some(labelled("IP router: ", gateway.to_text().as_str())),
                },
                Err(failure) => Step { stage: Stage::Failed { failure }, line: None },
            },
            Stage::Probe { gateway } => {
                if probe_was_sent(outcome) {
                    Step { stage: Stage::NeighborCache { gateway }, line: None }
                } else {
                    Step {
                        stage: Stage::Failed { failure: Failure::HardwareAddressNotFound },
                        line: None,
                    }
                }
            },
            Stage::NeighborCache { gateway } => match resolve_hardware(outcome, gateway) {
                Ok(hardware) => {
                    let line = labelled("MAC router: ", hardware.as_str());
                    Step { stage: Stage::DirectoryLookup { gateway, hardware }, line: Some(line) }
                },
                Err(failure) => Step { stage: Stage::Failed { failure }, line: None },
            },
            Stage::DirectoryLookup { gateway, hardware } => match directory_result(outcome) {
                Some(name) => Step {
                    stage: Stage::VendorLookup { hardware },
                    line: Some(labelled("Hostname router: ", name.as_str())),
                },
                None => Step { stage: Stage::NetbiosLookup { gateway, hardware }, line: None },
            },
            Stage::NetbiosLookup { hardware, .. } => {
                let line = match netbios_result(outcome) {
                    Some(name) => labelled("Hostname router: ", name.as_str()),
                    None => String::from_str("Hostname router: Unknown"),
                };
                Step { stage: Stage::VendorLookup { hardware }, line: Some(line) }
            },
            Stage::VendorLookup { .. } => {
                let line = match vendor_name(outcome) {
                    Some(vendor) => labelled("Router vendor: ", vendor.as_str()),
                    None => String::from_str("Unable to determine vendor by MAC"),
                };
                Step { stage: Stage::Finished, line: Some(line) }
            },
            Stage::Finished => Step { stage: Stage::Finished, line: None },
            Stage::Failed { failure } => Step { stage: Stage::Failed { failure }, line: None },
        }
    }
}

/// The stage reached from `stage` once its action and those of the stages
/// after it had the given outcomes, in order.
pub open spec fn stage_after(stage: StageView, outcomes: Seq<OutcomeView>) -> StageView
    decreases outcomes.len(),
{
    if outcomes.len() == 0 {
        stage
    } else {
        stage_after(next_stage(stage, outcomes[0]), outcomes.skip(1))
    }
}

/// The lines reported on the way from `stage` through the given outcomes,
/// in order.
pub open spec fn lines_reported(stage: StageView, outcomes: Seq<OutcomeView>) -> Seq<Seq<char>>
    decreases outcomes.len(),
{
    if outcomes.len() == 0 {
        Seq::empty()
    } else {
        let rest = lines_reported(next_stage(stage, outcomes[0]), outcomes.skip(1));
        match reported_line(stage, outcomes[0]) {
            Some(line) => seq![line] + rest,
            None => rest,
        }
    }
}

/// The outcomes that a complete identification takes in, in order: the
/// NetBIOS name query is made only where the directory service gave no
/// name.
pub open spec fn outcomes_taken(
    routes: OutcomeView,
    probe: OutcomeView,
    cache: OutcomeView,
    directory: OutcomeView,
    netbios: OutcomeView,
    vendor: OutcomeView,
) -> Seq<OutcomeView> {
    if directory_answer(directory) is Some {
        seq![routes, probe, cache, directory, vendor]
    } else {
        seq![routes, probe, cache, directory, netbios, vendor]
    }
}

/// The way from a stage through no outcome ends at that stage and reports
/// nothing; a longer way is its first step, followed by the rest.
proof fn lemma_way(stage: StageView, outcomes: Seq<OutcomeView>)
    ensures
        outcomes.len() == 0 ==> stage_after(stage, outcomes) == stage && lines_reported(
            stage,
            outcomes,
        ) == Seq::<Seq<char>>::empty(),
        outcomes.len() > 0 ==> stage_after(stage, outcomes) == stage_after(
            next_stage(stage, outcomes[0]),
            outcomes.skip(1),
        ) && lines_reported(stage, outcomes) == match reported_line(stage, outcomes[0]) {
            Some(line) => seq![line] + lines_reported(
                next_stage(stage, outcomes[0]),
                outcomes.skip(1),
            ),
            None => lines_reported(next_stage(stage, outcomes[0]), outcomes.skip(1)),
        },
{
}

/// The way from the vendor lookup through its one outcome.
proof fn lemma_way_from_vendor(hardware: Seq<char>, vendor: OutcomeView)
    ensures
        stage_after(StageView::VendorLookup { hardware }, seq![vendor]) == StageView::Finished,
        lines_reported(StageView::VendorLookup { hardware }, seq![vendor]) == seq![
            vendor_line(vendor_answer(vendor)),
        ],
{
    let stage = StageView::VendorLookup { hardware };
    let outcomes = seq![vendor];
    lemma_way(stage, outcomes);
    lemma_way(StageView::Finished, outcomes.skip(1));
    assert(lines_reported(stage, outcomes) =~= seq![vendor_line(vendor_answer(vendor))]);
}

/// The way from the directory-service lookup to the end.
proof fn lemma_way_from_directory(
    gateway: NetworkAddress,
    hardware: Seq<char>,
    directory: OutcomeView,
    netbios: OutcomeView,
    vendor: OutcomeView,
)
    ensures
        ({
            let stage = StageView::DirectoryLookup { gateway, hardware };
            let outcomes = if directory_answer(directory) is Some {
                seq![directory, vendor]
            } else {
                seq![directory, netbios, vendor]
            };
            &&& stage_after(stage, outcomes) == StageView::Finished
            &&& lines_reported(stage, outcomes) == seq![
                name_line(resolved_name(directory, netbios)),
                vendor_line(vendor_answer(vendor)),
            ]
        }),
{
    let stage = StageView::DirectoryLookup { gateway, hardware };
    lemma_way_from_vendor(hardware, vendor);
    if directory_answer(directory) is Some {
        let outcomes = seq![directory, vendor];
        lemma_way(stage, outcomes);
        assert(outcomes.skip(1) =~= seq![vendor]);
        assert(lines_reported(stage, outcomes) =~= seq![
            name_line(resolved_name(directory, netbios)),
            vendor_line(vendor_answer(vendor)),
        ]);
    } else {
        let outcomes = seq![directory, netbios, vendor];
        let second = StageView::NetbiosLookup { gateway, hardware };
        lemma_way(stage, outcomes);
        assert(outcomes.skip(1) =~= seq![netbios, vendor]);
        lemma_way(second, seq![netbios, vendor]);
        assert(seq![netbios, vendor].skip(1) =~= seq![vendor]);
        assert(lines_reported(stage, outcomes) =~= seq![
            name_line(resolved_name(directory, netbios)),
            vendor_line(vendor_answer(vendor)),
        ]);
    }
}

/// Where the gateway and its hardware address are found, the
/// identification finishes, and it reports four lines in this order: the
/// address, the hardware address, the host name or that it is unknown, the
/// vendor or that it could not be determined.
pub proof fn lemma_complete_run(
    routes: OutcomeView,
    probe: OutcomeView,
    cache: OutcomeView,
    directory: OutcomeView,
    netbios: OutcomeView,
    vendor: OutcomeView,
)
    requires
        located_gateway(routes) is Ok,
        probe_sent(probe),
        resolved_hardware(cache, located_gateway(routes)->Ok_0) is Ok,
    ensures
        ({
            let gateway = located_gateway(routes)->Ok_0;
            let hardware = resolved_hardware(cache, gateway)->Ok_0;
            let outcomes = outcomes_taken(routes, probe, cache, directory, netbios, vendor);
            &&& stage_after(StageView::RoutingTable, outcomes) == StageView::Finished
            &&& lines_reported(StageView::RoutingTable, outcomes) == seq![
                address_line(gateway),
                hardware_line(hardware),
                name_line(resolved_name(directory, netbios)),
                vendor_line(vendor_answer(vendor)),
            ]
        }),
{
    let gateway = located_gateway(routes)->Ok_0;
    let hardware = resolved_hardware(cache, gateway)->Ok_0;
    let tail = if directory_answer(directory) is Some {
        seq![directory, vendor]
    } else {
        seq![directory, netbios, vendor]
    };
    let o0 = outcomes_taken(routes, probe, cache, directory, netbios, vendor);
    let o1 = seq![probe, cache] + tail;
    let o2 = seq![cache] + tail;
    let s1 = StageView::Probe { gateway };
    let s2 = StageView::NeighborCache { gateway };
    let s3 = StageView::DirectoryLookup { gateway, hardware };
    lemma_way_from_directory(gateway, hardware, directory, netbios, vendor);
    lemma_way(s2, o2);
    assert(o2.skip(1) =~= tail);
    assert(lines_reported(s2, o2) =~= seq![hardware_line(hardware)] + lines_reported(s3, tail));
    lemma_way(s1, o1);
    assert(o1.skip(1) =~= o2);
    lemma_way(StageView::RoutingTable, o0);
    assert(o0.skip(1) =~= o1);
    assert(lines_reported(StageView::RoutingTable, o0) =~= seq![
        address_line(gateway),
        hardware_line(hardware),
        name_line(resolved_name(directory, netbios)),
        vendor_line(vendor_answer(vendor)),
    ]);
}

/// Where the gateway is not found, the identification fails for that
/// reason and reports no line.
pub proof fn lemma_gateway_failure(routes: OutcomeView)
    requires
        located_gateway(routes) is Err,
    ensures
        next_stage(StageView::RoutingTable, routes) == (StageView::Failed {
            failure: Failure::GatewayNotFound,
        }),
        reported_line(StageView::RoutingTable, routes) is None,
{
}

/// Where the gateway is found and its hardware address is not, because the
/// probe could not be sent or because the neighbor cache does not resolve
/// it, the identification fails for that reason, having reported the
/// address alone.
pub proof fn lemma_hardware_failure(routes: OutcomeView, probe: OutcomeView, cache: OutcomeView)
    requires
        located_gateway(routes) is Ok,
        !probe_sent(probe) || resolved_hardware(cache, located_gateway(routes)->Ok_0) is Err,
    ensures
        ({
            let outcomes = if probe_sent(probe) {
                seq![routes, probe, cache]
            } else {
                seq![routes, probe]
            };
            &&& stage_after(StageView::RoutingTable, outcomes) == (StageView::Failed {
                failure: Failure::HardwareAddressNotFound,
            })
            &&& lines_reported(StageView::RoutingTable, outcomes) == seq![
                address_line(located_gateway(routes)->Ok_0),
            ]
        }),
{
    let gateway = located_gateway(routes)->Ok_0;
    let o0 = if probe_sent(probe) {
        seq![routes, probe, cache]
    } else {
        seq![routes, probe]
    };
    let o1 = o0.skip(1);
    let o2 = o1.skip(1);
    lemma_way(StageView::RoutingTable, o0);
    lemma_way(StageView::Probe { gateway }, o1);
    if probe_sent(probe) {
        lemma_way(StageView::NeighborCache { gateway }, o2);
        lemma_way(next_stage(StageView::NeighborCache { gateway }, cache), o2.skip(1));
    } else {
        lemma_way(next_stage(StageView::Probe { gateway }, probe), o2);
    }
    assert(lines_reported(StageView::RoutingTable, o0) =~= seq![address_line(gateway)]);
}

/// Where the directory service gives a name, that name is reported at once
/// and the vendor lookup follows: no NetBIOS name query is made.
pub proof fn lemma_directory_name_reported(
    gateway: NetworkAddress,
    hardware: Seq<char>,
    directory: OutcomeView,
)
    requires
        directory_answer(directory) is Some,
    ensures
        ({
            let stage = StageView::DirectoryLookup { gateway, hardware };
            &&& reported_line(stage, directory) == Some(name_line(directory_answer(directory)))
            &&& next_stage(stage, directory) == (StageView::VendorLookup { hardware })
        }),
{
}

/// Where neither mechanism gives a name, the name is reported as unknown
/// and the vendor lookup follows: the identification does not fail.
pub proof fn lemma_unknown_name_reported(
    gateway: NetworkAddress,
    hardware: Seq<char>,
    directory: OutcomeView,
    netbios: OutcomeView,
)
    requires
        directory_answer(directory) is None,
        netbios_answer(netbios) is None,
    ensures
        ({
            let first = StageView::DirectoryLookup { gateway, hardware };
            let second = StageView::NetbiosLookup { gateway, hardware };
            &&& reported_line(first, directory) is None
            &&& next_stage(first, directory) == second
            &&& reported_line(second, netbios) == Some("Hostname router: Unknown"@)
            &&& next_stage(second, netbios) == (StageView::VendorLookup { hardware })
        }),
{
}

/// A lookup that got no response and one whose response has a status
/// outside 200 to 299 end the identification alike: with the line that
/// says that the vendor could not be determined.
pub proof fn lemma_unknown_vendor_reported(
    hardware: Seq<char>,
    status: u16,
    body: Option<Seq<char>>,
)
    requires
        !is_success(status),
    ensures
        ({
            let stage = StageView::VendorLookup { hardware };
            let refused = OutcomeView::Responded { status, body };
            &&& reported_line(stage, OutcomeView::Unavailable) == Some(
                "Unable to determine vendor by MAC"@,
            )
            &&& reported_line(stage, refused) == reported_line(stage, OutcomeView::Unavailable)
            &&& next_stage(stage, OutcomeView::Unavailable) == StageView::Finished
            &&& next_stage(stage, refused) == StageView::Finished
        }),
{
}

} // verus!
