//! What the core reports to the user interface: the state of the root
//! connection, its delay, the latest log line, and the node list to pick a
//! peer from.
use vstd::prelude::*;

use crate::identity::NodeInfo;
use crate::session::RootNodeState;

verus! {

/// A human-readable line for the user.
pub enum Log {
    Info(String),
    Error(String),
}

/// An update that the core sends to the user interface.
pub enum Message {
    RootNodeState(RootNodeState),
    /// Round-trip delay to the root node in milliseconds; -1 when unknown.
    Delay(i32),
    Log(Option<Log>),
}

/// The status line: root connection state, delay, latest log line.
pub struct StateBar {
    pub root_node_state: RootNodeState,
    /// Milliseconds; -1 while unknown.
    pub hub_node_delay: i32,
    pub log: Option<Log>,
}

impl StateBar {
    /// Disconnected, delay unknown, nothing logged.
    pub fn new() -> (r: StateBar)
        ensures
            r.root_node_state == RootNodeState::Disconnect,
            r.hub_node_delay == -1,
            r.log is None,
    {
        StateBar { root_node_state: RootNodeState::Disconnect, hub_node_delay: -1, log: None }
    }

    pub fn set_root_node_state(&mut self, state: RootNodeState)
        ensures
            final(self).root_node_state == state,
            final(self).hub_node_delay == old(self).hub_node_delay,
            final(self).log == old(self).log,
    {
        self.root_node_state = state;
    }

    /// Sets the delay; -1 means unknown.
    pub fn set_hub_node_delay(&mut self, delay: i32)
        ensures
            final(self).hub_node_delay == delay,
            final(self).root_node_state == old(self).root_node_state,
            final(self).log == old(self).log,
    {
        self.hub_node_delay = delay;
    }

    pub fn set_log(&mut self, log: Option<Log>)
        ensures
            final(self).log == log,
            final(self).root_node_state == old(self).root_node_state,
            final(self).hub_node_delay == old(self).hub_node_delay,
    {
        self.log = log;
    }

    /// Applies one update from the core.
    pub fn apply_message(&mut self, msg: Message)
        ensures
            match msg {
                Message::RootNodeState(s) => {
                    &&& final(self).root_node_state == s
                    &&& final(self).hub_node_delay == old(self).hub_node_delay
                    &&& final(self).log == old(self).log
                },
                Message::Delay(d) => {
                    &&& final(self).hub_node_delay == d
                    &&& final(self).root_node_state == old(self).root_node_state
                    &&& final(self).log == old(self).log
                },
                Message::Log(l) => {
                    &&& final(self).log == l
                    &&& final(self).root_node_state == old(self).root_node_state
                    &&& final(self).hub_node_delay == old(self).hub_node_delay
                },
            },
    {
        match msg {
            Message::RootNodeState(s) => self.set_root_node_state(s),
            Message::Delay(d) => self.set_hub_node_delay(d),
            Message::Log(l) => self.set_log(l),
        }
    }
}

/// The nodes that the root node listed, and the row the user picked.
pub struct NodeBrowserBar {
    pub node_info_list: Vec<NodeInfo>,
    pub row_selected_index: Option<usize>,
}

impl NodeBrowserBar {
    /// An empty list with no row picked.
    pub fn new() -> (r: NodeBrowserBar)
        ensures
            r.node_info_list@.len() == 0,
            r.row_selected_index is None,
    {
        NodeBrowserBar { node_info_list: Vec::new(), row_selected_index: None }
    }

    /// Shows a fresh listing. The pick is dropped: rows of the old listing
    /// do not name the same nodes in the new one.
    pub fn set_node_info_list(&mut self, list: Vec<NodeInfo>)
        ensures
            final(self).node_info_list == list,
            final(self).row_selected_index is None,
    {
        self.node_info_list = list;
        self.row_selected_index = None;
    }

    /// Picks row `index`, or no row; a row past the end picks none.
    pub fn select(&mut self, index: Option<usize>)
        ensures
            final(self).node_info_list == old(self).node_info_list,
            final(self).row_selected_index == match index {
                Some(i) => if i < old(self).node_info_list@.len() {
                    Some(i)
                } else {
                    None
                },
                None => None,
            },
    {
        self.row_selected_index = match index {
            Some(i) => if i < self.node_info_list.len() {
                Some(i)
            } else {
                None
            },
            None => None,
        };
    }

    /// The identity of the picked node, to connect to.
    pub fn selected_uuid(&self) -> (r: Option<u128>)
        ensures
            match self.row_selected_index {
                Some(i) => if i < self.node_info_list@.len() {
                    r == Some(self.node_info_list@[i as int].uuid)
                } else {
                    r is None
                },
                None => r is None,
            },
    {
        match self.row_selected_index {
            Some(i) => if i < self.node_info_list.len() {
                Some(self.node_info_list[i].uuid)
            } else {
                None
            },
            None => None,
        }
    }
}

/// The form for connecting to a root node: whether it takes input, and which
/// of the configured root nodes is picked.
pub struct ConnectRootNodeBar {
    pub is_enable: bool,
    pub root_node_selected: usize,
}

/// What happens to the link to the root node.
#[derive(Clone, Copy, Debug, PartialEq, Eq, Structural)]
pub enum RootLinkEvent {
    /// The connection attempt came through.
    Connected,
    /// The connection attempt failed.
    ConnectFailed,
    /// An established connection went away.
    Disconnected,
}

/// Everything the core shows about a node's root connection.
pub struct NodeStatus {
    pub state_bar: StateBar,
    pub connect_root_node_bar: ConnectRootNodeBar,
    pub node_browser_bar: NodeBrowserBar,
}

impl NodeStatus {
    /// Disconnected, the form open on the first root node, no nodes known.
    pub fn new() -> (r: NodeStatus)
        ensures
            r.state_bar.root_node_state == RootNodeState::Disconnect,
            r.state_bar.hub_node_delay == -1,
            r.state_bar.log is None,
            r.connect_root_node_bar.is_enable,
            r.connect_root_node_bar.root_node_selected == 0,
            r.node_browser_bar.node_info_list@.len() == 0,
            r.node_browser_bar.row_selected_index is None,
    {
        NodeStatus {
            state_bar: StateBar::new(),
            connect_root_node_bar: ConnectRootNodeBar { is_enable: true, root_node_selected: 0 },
            node_browser_bar: NodeBrowserBar::new(),
        }
    }

    /// Starts connecting to the picked root node: the form closes and the
    /// state turns to connecting until the attempt ends.
    pub fn begin_connect(&mut self)
        ensures
            final(self).state_bar.root_node_state == RootNodeState::Connecting,
            !final(self).connect_root_node_bar.is_enable,
            final(self).connect_root_node_bar.root_node_selected
                == old(self).connect_root_node_bar.root_node_selected,
            final(self).node_browser_bar == old(self).node_browser_bar,
            final(self).state_bar.log == old(self).state_bar.log,
            final(self).state_bar.hub_node_delay == old(self).state_bar.hub_node_delay,
    {
        self.connect_root_node_bar.is_enable = false;
        self.state_bar.set_root_node_state(RootNodeState::Connecting);
    }

    /// Follows the root link. On success the state turns connected and an
    /// info line is logged. On failure, or when the link goes, the state turns
    /// disconnected, the form opens again and a line is logged; a lost link
    /// also empties the node list, whose nodes can no longer be reached
    /// through it.
    pub fn on_root_link_event(&mut self, event: RootLinkEvent)
        ensures
            final(self).connect_root_node_bar.root_node_selected
                == old(self).connect_root_node_bar.root_node_selected,
            match event {
                RootLinkEvent::Connected => {
                    &&& final(self).state_bar.root_node_state == RootNodeState::Connected
                    &&& final(self).state_bar.log matches Some(Log::Info(_))
                    &&& final(self).connect_root_node_bar.is_enable
                        == old(self).connect_root_node_bar.is_enable
                    &&& final(self).node_browser_bar == old(self).node_browser_bar
                },
                RootLinkEvent::ConnectFailed => {
                    &&& final(self).state_bar.root_node_state == RootNodeState::Disconnect
                    &&& final(self).state_bar.log matches Some(Log::Error(_))
                    &&& final(self).connect_root_node_bar.is_enable
                    &&& final(self).node_browser_bar == old(self).node_browser_bar
                },
                RootLinkEvent::Disconnected => {
                    &&& final(self).state_bar.root_node_state == RootNodeState::Disconnect
                    &&& final(self).state_bar.log matches Some(Log::Info(_))
                    &&& final(self).connect_root_node_bar.is_enable
                    &&& final(self).node_browser_bar.node_info_list@.len() == 0
                    &&& final(self).node_browser_bar.row_selected_index is None
                },
            },
    {
        match event {
            RootLinkEvent::Connected => {
                self.state_bar.set_root_node_state(RootNodeState::Connected);
                self.state_bar.set_log(Some(Log::Info("connected to the root node".to_string())));
            },
            RootLinkEvent::ConnectFailed => {
                self.state_bar.set_root_node_state(RootNodeState::Disconnect);
                self.connect_root_node_bar.is_enable = true;
                self.state_bar.set_log(
                    Some(Log::Error("could not connect to the root node".to_string())),
                );
            },
            RootLinkEvent::Disconnected => {
                self.state_bar.set_root_node_state(RootNodeState::Disconnect);
                self.connect_root_node_bar.is_enable = true;
                self.node_browser_bar.set_node_info_list(Vec::new());
                self.state_bar.set_log(
                    Some(Log::Info("the root node closed the connection".to_string())),
                );
            },
        }
    }
}

} // verus!
