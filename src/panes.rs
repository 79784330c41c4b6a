//! What the panes of the front end show, as plain lines. Styling and drawing
//! are left to the caller.
use vstd::prelude::*;
use crate::dashboard::{CanisterInfo, CanisterView};
use crate::project::{info_of, CanisterInfoView};
use crate::state::{AppState, LogsPane};
use crate::text::{chars_of, find, find_first, lemma_chars_deep_view, str_eq};

verus! {

broadcast use lemma_chars_deep_view;

/// How a line of a list is marked.
#[derive(Debug, Clone, Copy, PartialEq, Eq, Structural)]
pub enum LineKind {
    Header,
    Item,
    Last,
    Empty,
}

impl DeepView for LineKind {
    type V = LineKind;

    open spec fn deep_view(&self) -> LineKind {
        *self
    }
}

/// Whether `line` mentions `text`.
pub open spec fn mentions(line: Seq<char>, text: Seq<char>) -> bool {
    find(line, text).is_some()
}

/// The lines among `lines` that mention `text`, in order.
pub open spec fn lines_mentioning(lines: Seq<Seq<char>>, text: Seq<char>) -> Seq<Seq<char>>
    decreases lines.len(),
{
    if lines.len() == 0 {
        Seq::empty()
    } else if mentions(lines.last(), text) {
        lines_mentioning(lines.drop_last(), text).push(lines.last())
    } else {
        lines_mentioning(lines.drop_last(), text)
    }
}

/// The canister selected in the snapshot, if there is one.
pub open spec fn selected_canister(s: AppState) -> Option<CanisterInfo> {
    match s.replica.info {
        Some(info) => if s.selected_canister_index < info.canisters@.len() {
            Some(info.canisters@[s.selected_canister_index as int])
        } else {
            None
        },
        None => None,
    }
}

/// The log lines that the log pane shows: all of them on the replica pane; on
/// the canister pane those that mention the selected canister, or none when
/// no canister is selected.
pub open spec fn shown_logs(s: AppState) -> Seq<Seq<char>> {
    match s.logs_pane {
        LogsPane::ReplicaLogs => s.collected_logs.deep_view(),
        LogsPane::CanisterLogs => match selected_canister(s) {
            Some(c) => lines_mentioning(s.collected_logs.deep_view(), c.canister_id@),
            None => Seq::empty(),
        },
    }
}

/// The names, separated by a comma and a blank.
pub open spec fn joined_names(names: Seq<Seq<char>>) -> Seq<char>
    decreases names.len(),
{
    if names.len() == 0 {
        Seq::empty()
    } else if names.len() == 1 {
        names[0]
    } else {
        joined_names(names.drop_last()) + ", "@ + names.last()
    }
}

pub open spec fn bool_text(b: bool) -> Seq<char> {
    if b {
        "true"@
    } else {
        "false"@
    }
}

/// The line that lists the exported functions of one kind; none when there
/// are none.
pub open spec fn kind_line(label: Seq<char>, names: Seq<Seq<char>>) -> Seq<(LineKind, Seq<char>, Seq<char>)> {
    if names.len() == 0 {
        Seq::empty()
    } else {
        seq![(LineKind::Item, label, joined_names(names))]
    }
}

pub open spec fn endpoint_lines(c: CanisterView, webserver_port: Seq<char>) -> Seq<
    (LineKind, Seq<char>, Seq<char>),
> {
    if c.exports.query.contains("http_request"@) {
        seq![
            (
                LineKind::Item,
                "HTTP Endpoint: "@,
                "http://"@ + c.canister_id + ".localhost:"@ + webserver_port,
            ),
        ]
    } else {
        Seq::empty()
    }
}

pub open spec fn field_lines(c: CanisterView) -> Seq<(LineKind, Seq<char>, Seq<char>)> {
    seq![
        (LineKind::Item, "Memory Allocation: "@, c.memory_allocation),
        (LineKind::Item, "Last Execution Round: "@, c.last_execution_round),
        (LineKind::Item, "Controllers: "@, c.controllers),
        (LineKind::Item, "Certified Data Length: "@, c.certified_data_length),
        (LineKind::Item, "Canister History Memory Usage: "@, c.canister_history_memory_usage),
        (LineKind::Item, "Execution State: "@, c.execution_state),
        (LineKind::Item, "Last Full Execution Round: "@, c.last_full_execution_round),
        (LineKind::Item, "Compute Allocation: "@, c.compute_allocation),
        (LineKind::Item, "Freeze Threshold: "@, c.freeze_threshold),
        (LineKind::Item, "Memory Usage: "@, c.memory_usage),
        (LineKind::Item, "Accumulated Priority: "@, c.accumulated_priority),
        (LineKind::Item, "Cycles Balance: "@, c.cycles_balance),
    ]
}

pub open spec fn export_lines(c: CanisterView) -> Seq<(LineKind, Seq<char>, Seq<char>)> {
    kind_line("Exported Query functions: "@, c.exports.query) + kind_line(
        "Exported Update functions: "@,
        c.exports.update,
    ) + kind_line("Exported System functions: "@, c.exports.system) + seq![
        (LineKind::Item, "Exports heartbeat: "@, bool_text(c.exports.heartbeat)),
        (LineKind::Last, "Exports global timer: "@, bool_text(c.exports.global_timer)),
    ]
}

/// The lines that describe canister `c`, whose webserver listens on
/// `webserver_port`: its id, its HTTP endpoint when it exports the query
/// `http_request`, each field, its exported functions by kind and its flags.
pub open spec fn detail_lines(c: CanisterView, webserver_port: Seq<char>) -> Seq<
    (LineKind, Seq<char>, Seq<char>),
> {
    seq![(LineKind::Header, "Canister ID: "@, c.canister_id)] + endpoint_lines(c, webserver_port)
        + field_lines(c) + export_lines(c)
}

fn push_line(lines: &mut Vec<(LineKind, String, String)>, kind: LineKind, key: &str, value: String)
    ensures
        final(lines).deep_view() == old(lines).deep_view().push((kind, key@, value@)),
{
    let ghost before = lines.deep_view();
    lines.push((kind, key.to_owned(), value));
    assert(lines.deep_view() =~= before.push((kind, key@, value@)));
}

/// The names, separated by a comma and a blank.
fn join_names(names: &Vec<String>) -> (r: String)
    ensures
        r@ == joined_names(names.deep_view()),
{
    let mut r = String::new();
    let mut i: usize = 0;
    while i < names.len()
        invariant
            i <= names.len(),
            r@ == joined_names(names.deep_view().subrange(0, i as int)),
        decreases names.len() - i,
    {
        let ghost part = names.deep_view().subrange(0, i + 1);
        assert(part.drop_last() =~= names.deep_view().subrange(0, i as int));
        assert(part.last() == names@[i as int]@);
        if i > 0 {
            r.append(", ");
        } else {
            assert(part =~= seq![names@[0]@]);
        }
        r.append(names[i].as_str());
        i = i + 1;
    }
    assert(names.deep_view().subrange(0, i as int) =~= names.deep_view());
    r
}

/// Whether `names` holds `name`.
fn holds_name(names: &Vec<String>, name: &str) -> (r: bool)
    ensures
        r == names.deep_view().contains(name@),
{
    let mut i: usize = 0;
    while i < names.len()
        invariant
            i <= names.len(),
            forall|j: int| 0 <= j < i ==> names.deep_view()[j] != name@,
        decreases names.len() - i,
    {
        if str_eq(names[i].as_str(), name) {
            assert(names.deep_view()[i as int] == name@);
            return true;
        }
        i = i + 1;
    }
    false
}

fn push_kind_line(lines: &mut Vec<(LineKind, String, String)>, label: &str, names: &Vec<String>)
    ensures
        final(lines).deep_view() == old(lines).deep_view() + kind_line(label@, names.deep_view()),
{
    if names.len() > 0 {
        let ghost before = lines.deep_view();
        push_line(lines, LineKind::Item, label, join_names(names));
        assert(lines.deep_view() =~= before + kind_line(label@, names.deep_view()));
    } else {
        assert(lines.deep_view() =~= old(lines).deep_view() + kind_line(label@, names.deep_view()));
    }
}

impl CanisterInfo {
    fn push_endpoint(&self, lines: &mut Vec<(LineKind, String, String)>, webserver_port: &str)
        ensures
            final(lines).deep_view() == old(lines).deep_view() + endpoint_lines(self@, webserver_port@),
    {
        if holds_name(&self.exports.exported_query_functions, "http_request") {
            let mut url = "http://".to_owned();
            url.append(self.canister_id.as_str());
            url.append(".localhost:");
            url.append(webserver_port);
            let ghost before = lines.deep_view();
            push_line(lines, LineKind::Item, "HTTP Endpoint: ", url);
            assert(lines.deep_view() =~= before + endpoint_lines(self@, webserver_port@));
        } else {
            assert(lines.deep_view() =~= old(lines).deep_view() + endpoint_lines(self@, webserver_port@));
        }
    }

    fn push_fields(&self, lines: &mut Vec<(LineKind, String, String)>)
        ensures
            final(lines).deep_view() == old(lines).deep_view() + field_lines(self@),
    {
        push_line(lines, LineKind::Item, "Memory Allocation: ", self.memory_allocation.clone());
        push_line(lines, LineKind::Item, "Last Execution Round: ", self.last_execution_round.clone());
        push_line(lines, LineKind::Item, "Controllers: ", self.controllers.clone());
        push_line(lines, LineKind::Item, "Certified Data Length: ", self.certified_data_length.clone());
        push_line(lines, LineKind::Item, "Canister History Memory Usage: ", self.canister_history_memory_usage.clone());
        push_line(lines, LineKind::Item, "Execution State: ", self.execution_state.clone());
        push_line(lines, LineKind::Item, "Last Full Execution Round: ", self.last_full_execution_round.clone());
        push_line(lines, LineKind::Item, "Compute Allocation: ", self.compute_allocation.clone());
        push_line(lines, LineKind::Item, "Freeze Threshold: ", self.freeze_threshold.clone());
        push_line(lines, LineKind::Item, "Memory Usage: ", self.memory_usage.clone());
        push_line(lines, LineKind::Item, "Accumulated Priority: ", self.accumulated_priority.clone());
        push_line(lines, LineKind::Item, "Cycles Balance: ", self.cycles_balance.clone());
        assert(lines.deep_view() =~= old(lines).deep_view() + field_lines(self@));
    }

    fn push_exports(&self, lines: &mut Vec<(LineKind, String, String)>)
        ensures
            final(lines).deep_view() == old(lines).deep_view() + export_lines(self@),
    {
        push_kind_line(lines, "Exported Query functions: ", &self.exports.exported_query_functions);
        push_kind_line(lines, "Exported Update functions: ", &self.exports.exported_update_functions);
        push_kind_line(lines, "Exported System functions: ", &self.exports.exported_system_functions);
        let heartbeat = if self.exports.exports_heartbeat {
            "true".to_owned()
        } else {
            "false".to_owned()
        };
        push_line(lines, LineKind::Item, "Exports heartbeat: ", heartbeat);
        let timer = if self.exports.exports_global_timer {
            "true".to_owned()
        } else {
            "false".to_owned()
        };
        push_line(lines, LineKind::Last, "Exports global timer: ", timer);
        assert(lines.deep_view() =~= old(lines).deep_view() + export_lines(self@));
    }

    /// The lines that describe this canister, whose webserver listens on
    /// `webserver_port`.
    pub fn detail_lines(&self, webserver_port: &str) -> (r: Vec<(LineKind, String, String)>)
        ensures
            r.deep_view() == detail_lines(self@, webserver_port@),
    {
        let mut lines: Vec<(LineKind, String, String)> = Vec::new();
        push_line(&mut lines, LineKind::Header, "Canister ID: ", self.canister_id.clone());
        self.push_endpoint(&mut lines, webserver_port);
        self.push_fields(&mut lines);
        self.push_exports(&mut lines);
        assert(lines.deep_view() =~= detail_lines(self@, webserver_port@));
        lines
    }
}

/// How a canister of the snapshot is listed: by its id, and by its name when
/// a registered project declares it.
pub open spec fn canister_label(
    id: Seq<char>,
    found: Option<(Seq<char>, Seq<char>, CanisterInfoView)>,
) -> Seq<char> {
    match found {
        Some((_, name, _)) => "Canister ID: "@ + id + ", Canister name: "@ + name,
        None => "Canister ID: "@ + id,
    }
}

/// The labels of the canisters of the snapshot, in its order.
pub open spec fn canister_labels(s: AppState) -> Seq<Seq<char>> {
    match s.replica.info {
        Some(info) => Seq::new(
            info.canisters@.len(),
            |i: int|
                canister_label(
                    info.canisters@[i].canister_id@,
                    info_of(
                        s.db.projects.deep_view(),
                        info.canisters@[i].canister_id@,
                        s.selected_network@,
                    ),
                ),
        ),
        None => Seq::empty(),
    }
}

impl AppState {
    /// The labels of the canisters of the snapshot, in its order.
    pub fn canister_labels(&self) -> (r: Vec<String>)
        ensures
            r.deep_view() == canister_labels(*self),
    {
        let mut r: Vec<String> = Vec::new();
        match &self.replica.info {
            Some(info) => {
                let mut i: usize = 0;
                while i < info.canisters.len()
                    invariant
                        i <= info.canisters.len(),
                        self.replica.info == Some(*info),
                        r.deep_view() == canister_labels(*self).subrange(0, i as int),
                    decreases info.canisters.len() - i,
                {
                    let id = &info.canisters[i].canister_id;
                    let mut label = "Canister ID: ".to_owned();
                    label.append(id.as_str());
                    let found = self.db.get_info(id.as_str(), self.selected_network.as_str());
                    match &found {
                        Some((_, name, _)) => {
                            label.append(", Canister name: ");
                            label.append(name.as_str());
                        },
                        None => {},
                    }
                    assert(label@ == canister_label(id@, found.deep_view()));
                    assert(canister_labels(*self)[i as int] == label@);
                    let ghost before = r.deep_view();
                    r.push(label);
                    assert(r.deep_view() =~= before.push(canister_labels(*self)[i as int]));
                    assert(r.deep_view() =~= canister_labels(*self).subrange(0, i + 1));
                    i = i + 1;
                }
                assert(canister_labels(*self).subrange(0, i as int) =~= canister_labels(*self));
            },
            None => {
                assert(r.deep_view() =~= canister_labels(*self));
            },
        }
        r
    }

    /// The canister selected in the snapshot, if there is one.
    pub fn selected_canister(&self) -> (r: Option<&CanisterInfo>)
        ensures
            match r {
                Some(c) => selected_canister(*self) == Some(*c),
                None => selected_canister(*self).is_none(),
            },
    {
        match &self.replica.info {
            Some(info) => {
                if self.selected_canister_index < info.canisters.len() {
                    Some(&info.canisters[self.selected_canister_index])
                } else {
                    None
                }
            },
            None => None,
        }
    }

    /// The log lines that the log pane shows.
    pub fn visible_logs(&self) -> (r: Vec<String>)
        ensures
            r.deep_view() == shown_logs(*self),
    {
        match self.logs_pane {
            LogsPane::ReplicaLogs => {
                let mut r: Vec<String> = Vec::new();
                let mut i: usize = 0;
                while i < self.collected_logs.len()
                    invariant
                        i <= self.collected_logs.len(),
                        r.deep_view() == self.collected_logs.deep_view().subrange(0, i as int),
                    decreases self.collected_logs.len() - i,
                {
                    let ghost before = r.deep_view();
                    r.push(self.collected_logs[i].clone());
                    assert(r.deep_view() =~= before.push(self.collected_logs@[i as int]@));
                    assert(self.collected_logs.deep_view().subrange(0, i + 1)
                        =~= self.collected_logs.deep_view().subrange(0, i as int).push(
                        self.collected_logs@[i as int]@,
                    ));
                    i = i + 1;
                }
                assert(self.collected_logs.deep_view().subrange(0, i as int)
                    =~= self.collected_logs.deep_view());
                r
            },
            LogsPane::CanisterLogs => {
                let mut r: Vec<String> = Vec::new();
                let id = match self.selected_canister() {
                    Some(c) => chars_of(c.canister_id.as_str()),
                    None => {
                        assert(r.deep_view() =~= Seq::<Seq<char>>::empty());
                        return r;
                    },
                };
                let ghost all = self.collected_logs.deep_view();
                let mut i: usize = 0;
                assert(all.subrange(0, 0) =~= Seq::<Seq<char>>::empty());
                while i < self.collected_logs.len()
                    invariant
                        i <= self.collected_logs.len(),
                        all == self.collected_logs.deep_view(),
                        selected_canister(*self) matches Some(c) && id@ == c.canister_id@,
                        r.deep_view() == lines_mentioning(all.subrange(0, i as int), id@),
                    decreases self.collected_logs.len() - i,
                {
                    let ghost part = all.subrange(0, i + 1);
                    assert(part.drop_last() =~= all.subrange(0, i as int));
                    assert(part.last() == self.collected_logs@[i as int]@);
                    let line = chars_of(self.collected_logs[i].as_str());
                    if find_first(&line, &id).is_some() {
                        let ghost before = r.deep_view();
                        r.push(self.collected_logs[i].clone());
                        assert(r.deep_view() =~= before.push(self.collected_logs@[i as int]@));
                    }
                    i = i + 1;
                }
                assert(all.subrange(0, i as int) =~= all);
                r
            },
        }
    }
}

} // verus!
