//! The server's counters as the main view shows them: kept up to date from the event stream,
//! with the text of each counter written out again only after it changes.

use vstd::prelude::*;

use crate::handle_requests::Metrics;
use crate::text::{decimal, decimal_string, push_str};
use crate::tui::main_view::colored_logs::EventData;
use crate::tui::pretty_print::{pretty_bytes, PrettyByteDisplayer};

verus! {

/// The rows the counters take.
pub const HEIGHT: u16 = 6;

/// The narrowest width the counters are shown in.
pub const MIN_WIDTH: u16 = 25;

/// The labels of the counters, in the order they are shown.
pub const CURRENT_CLIENTS_LABEL: &'static str = "Current clients:";
pub const HISTORIC_CLIENTS_LABEL: &'static str = "Historic clients:";
pub const BYTES_SENT_LABEL: &'static str = "Bytes sent:";
pub const BYTES_RECEIVED_LABEL: &'static str = "Bytes received:";
pub const CURRENT_MANAGERS_LABEL: &'static str = "Current managers:";
pub const HISTORIC_MANAGERS_LABEL: &'static str = "Historic managers:";

/// An amount of bytes as the counters show it: abbreviated, then in full in brackets.
pub open spec fn bytes_text(bytes: u64) -> Seq<char> {
    pretty_bytes((bytes as usize) as nat) + " ("@ + decimal(bytes as nat) + ")"@
}

/// The text of each counter, in the order they are shown.
pub open spec fn counter_texts(m: Metrics) -> Seq<Seq<char>> {
    seq![
        decimal(m.current_client_connections as nat),
        decimal(m.historic_client_connections as nat),
        bytes_text(m.client_bytes_sent),
        bytes_text(m.client_bytes_received),
        decimal(m.current_sandstorm_connections as nat),
        decimal(m.historic_sandstorm_connections as nat),
    ]
}

/// What an event of the stream changes in the counters.
#[derive(Debug, Clone, Copy, PartialEq, Eq, Structural)]
pub enum MetricsChange {
    BytesSent(u64),
    BytesReceived(u64),
    ClientAccepted,
    ClientFinished,
    ManagerAccepted,
    ManagerFinished,
    Unchanged,
}

/// What an event of the stream changes in the counters.
pub open spec fn metrics_change_spec(data: EventData) -> MetricsChange {
    match data {
        EventData::ClientBytesSent(_, count) => MetricsChange::BytesSent(count),
        EventData::ClientBytesReceived(_, count) => MetricsChange::BytesReceived(count),
        EventData::NewClientConnectionAccepted(_, _) => MetricsChange::ClientAccepted,
        EventData::ClientConnectionFinished(_, _, _, _) => MetricsChange::ClientFinished,
        EventData::NewSandstormConnectionAccepted(_, _) => MetricsChange::ManagerAccepted,
        EventData::SandstormConnectionFinished(_, _) => MetricsChange::ManagerFinished,
        _ => MetricsChange::Unchanged,
    }
}

/// What an event of the stream changes in the counters (and, for the bytes a client moved, in
/// the usage history).
pub fn metrics_change(data: &EventData) -> (c: MetricsChange)
    ensures
        c == metrics_change_spec(*data),
{
    match data {
        EventData::ClientBytesSent(_, count) => MetricsChange::BytesSent(*count),
        EventData::ClientBytesReceived(_, count) => MetricsChange::BytesReceived(*count),
        EventData::NewClientConnectionAccepted(_, _) => MetricsChange::ClientAccepted,
        EventData::ClientConnectionFinished(_, _, _, _) => MetricsChange::ClientFinished,
        EventData::NewSandstormConnectionAccepted(_, _) => MetricsChange::ManagerAccepted,
        EventData::SandstormConnectionFinished(_, _) => MetricsChange::ManagerFinished,
        _ => MetricsChange::Unchanged,
    }
}

/// Whether a change can be made to the counters without going past the ends of their types.
pub open spec fn change_fits(m: Metrics, c: MetricsChange) -> bool {
    match c {
        MetricsChange::BytesSent(n) => m.client_bytes_sent + n <= u64::MAX,
        MetricsChange::BytesReceived(n) => m.client_bytes_received + n <= u64::MAX,
        MetricsChange::ClientAccepted => m.current_client_connections < u32::MAX && m.historic_client_connections
            < u64::MAX,
        MetricsChange::ClientFinished => m.current_client_connections > 0,
        MetricsChange::ManagerAccepted => m.current_sandstorm_connections < u32::MAX
            && m.historic_sandstorm_connections < u64::MAX,
        MetricsChange::ManagerFinished => m.current_sandstorm_connections > 0,
        MetricsChange::Unchanged => true,
    }
}

/// Whether a change can be made to the counters without going past the ends of their types.
pub fn change_fits_now(m: Metrics, c: MetricsChange) -> (r: bool)
    ensures
        r == change_fits(m, c),
{
    match c {
        MetricsChange::BytesSent(n) => m.client_bytes_sent <= u64::MAX - n,
        MetricsChange::BytesReceived(n) => m.client_bytes_received <= u64::MAX - n,
        MetricsChange::ClientAccepted => m.current_client_connections < u32::MAX && m.historic_client_connections
            < u64::MAX,
        MetricsChange::ClientFinished => m.current_client_connections > 0,
        MetricsChange::ManagerAccepted => m.current_sandstorm_connections < u32::MAX
            && m.historic_sandstorm_connections < u64::MAX,
        MetricsChange::ManagerFinished => m.current_sandstorm_connections > 0,
        MetricsChange::Unchanged => true,
    }
}

/// The counters after a change.
pub open spec fn apply_change(m: Metrics, c: MetricsChange) -> Metrics {
    match c {
        MetricsChange::BytesSent(n) => Metrics { client_bytes_sent: (m.client_bytes_sent + n) as u64, ..m },
        MetricsChange::BytesReceived(n) => Metrics { client_bytes_received: (m.client_bytes_received + n) as u64, ..m },
        MetricsChange::ClientAccepted => Metrics {
            current_client_connections: (m.current_client_connections + 1) as u32,
            historic_client_connections: (m.historic_client_connections + 1) as u64,
            ..m
        },
        MetricsChange::ClientFinished => Metrics {
            current_client_connections: (m.current_client_connections - 1) as u32,
            ..m
        },
        MetricsChange::ManagerAccepted => Metrics {
            current_sandstorm_connections: (m.current_sandstorm_connections + 1) as u32,
            historic_sandstorm_connections: (m.historic_sandstorm_connections + 1) as u64,
            ..m
        },
        MetricsChange::ManagerFinished => Metrics {
            current_sandstorm_connections: (m.current_sandstorm_connections - 1) as u32,
            ..m
        },
        MetricsChange::Unchanged => m,
    }
}

/// The server's counters and the text last written for each.
pub struct MetricsDisplay {
    metrics: Metrics,
    current_client_connections_str: String,
    historic_client_connections_str: String,
    client_bytes_sent_str: String,
    client_bytes_received_str: String,
    current_sandstorm_connections_str: String,
    historic_sandstorm_connections_str: String,
}

impl MetricsDisplay {
    /// The counters.
    pub closed spec fn spec_metrics(&self) -> Metrics {
        self.metrics
    }

    /// The text kept for each counter, in the order they are shown; empty where it is to be
    /// written again.
    pub closed spec fn spec_texts(&self) -> Seq<Seq<char>> {
        seq![
            self.current_client_connections_str@,
            self.historic_client_connections_str@,
            self.client_bytes_sent_str@,
            self.client_bytes_received_str@,
            self.current_sandstorm_connections_str@,
            self.historic_sandstorm_connections_str@,
        ]
    }

    /// Each text kept is either empty or that of its counter as it is now.
    pub open spec fn wf(&self) -> bool {
        forall|i: int|
            0 <= i < 6 ==> (#[trigger] self.spec_texts()[i]).len() == 0 || self.spec_texts()[i] == counter_texts(
                self.spec_metrics(),
            )[i]
    }

    /// Counters with no text written yet.
    pub fn new(metrics: Metrics) -> (d: Self)
        ensures
            d.wf(),
            d.spec_metrics() == metrics,
            forall|i: int| 0 <= i < 6 ==> (#[trigger] d.spec_texts()[i]).len() == 0,
    {
        Self {
            metrics,
            current_client_connections_str: String::new(),
            historic_client_connections_str: String::new(),
            client_bytes_sent_str: String::new(),
            client_bytes_received_str: String::new(),
            current_sandstorm_connections_str: String::new(),
            historic_sandstorm_connections_str: String::new(),
        }
    }

    /// The counters.
    pub fn metrics(&self) -> (m: Metrics)
        ensures
            m == self.spec_metrics(),
    {
        self.metrics
    }

    /// Applies a change to the counters, dropping the text of each counter it changes.
    pub fn apply(&mut self, change: MetricsChange)
        requires
            old(self).wf(),
            change_fits(old(self).spec_metrics(), change),
        ensures
            final(self).wf(),
            final(self).spec_metrics() == apply_change(old(self).spec_metrics(), change),
            forall|i: int|
                0 <= i < 6 && counter_texts(final(self).spec_metrics())[i] != counter_texts(old(self).spec_metrics())[i]
                    ==> (#[trigger] final(self).spec_texts()[i]).len() == 0,
            forall|i: int|
                0 <= i < 6 ==> (#[trigger] final(self).spec_texts()[i]) == old(self).spec_texts()[i]
                    || final(self).spec_texts()[i].len() == 0,
    {
        match change {
            MetricsChange::BytesSent(n) => self.on_client_bytes_sent(n),
            MetricsChange::BytesReceived(n) => self.on_client_bytes_received(n),
            MetricsChange::ClientAccepted => self.on_new_client_connection_accepted(),
            MetricsChange::ClientFinished => self.on_client_connection_finished(),
            MetricsChange::ManagerAccepted => self.on_new_sandstorm_collection_accepted(),
            MetricsChange::ManagerFinished => self.on_sandstorm_collection_finished(),
            MetricsChange::Unchanged => {},
        }
    }

    /// A client connected: one more current and one more historic client.
    pub fn on_new_client_connection_accepted(&mut self)
        requires
            old(self).wf(),
            change_fits(old(self).spec_metrics(), MetricsChange::ClientAccepted),
        ensures
            final(self).wf(),
            final(self).spec_metrics() == apply_change(old(self).spec_metrics(), MetricsChange::ClientAccepted),
            final(self).spec_texts() == old(self).spec_texts().update(0, Seq::empty()).update(1, Seq::empty()),
    {
        self.metrics.current_client_connections = self.metrics.current_client_connections + 1;
        self.metrics.historic_client_connections = self.metrics.historic_client_connections + 1;
        self.current_client_connections_str = String::new();
        self.historic_client_connections_str = String::new();
        assert(self.spec_texts() =~= old(self).spec_texts().update(0, Seq::empty()).update(1, Seq::empty()));
    }

    /// A client's connection ended: one less current client.
    pub fn on_client_connection_finished(&mut self)
        requires
            old(self).wf(),
            change_fits(old(self).spec_metrics(), MetricsChange::ClientFinished),
        ensures
            final(self).wf(),
            final(self).spec_metrics() == apply_change(old(self).spec_metrics(), MetricsChange::ClientFinished),
            final(self).spec_texts() == old(self).spec_texts().update(0, Seq::empty()),
    {
        self.metrics.current_client_connections = self.metrics.current_client_connections - 1;
        self.current_client_connections_str = String::new();
        assert(self.spec_texts() =~= old(self).spec_texts().update(0, Seq::empty()));
    }

    /// Clients sent bytes to their destinations.
    pub fn on_client_bytes_sent(&mut self, count: u64)
        requires
            old(self).wf(),
            change_fits(old(self).spec_metrics(), MetricsChange::BytesSent(count)),
        ensures
            final(self).wf(),
            final(self).spec_metrics() == apply_change(old(self).spec_metrics(), MetricsChange::BytesSent(count)),
            final(self).spec_texts() == old(self).spec_texts().update(2, Seq::empty()),
    {
        self.metrics.client_bytes_sent = self.metrics.client_bytes_sent + count;
        self.client_bytes_sent_str = String::new();
        assert(self.spec_texts() =~= old(self).spec_texts().update(2, Seq::empty()));
    }

    /// Clients received bytes from their destinations.
    pub fn on_client_bytes_received(&mut self, count: u64)
        requires
            old(self).wf(),
            change_fits(old(self).spec_metrics(), MetricsChange::BytesReceived(count)),
        ensures
            final(self).wf(),
            final(self).spec_metrics() == apply_change(old(self).spec_metrics(), MetricsChange::BytesReceived(count)),
            final(self).spec_texts() == old(self).spec_texts().update(3, Seq::empty()),
    {
        self.metrics.client_bytes_received = self.metrics.client_bytes_received + count;
        self.client_bytes_received_str = String::new();
        assert(self.spec_texts() =~= old(self).spec_texts().update(3, Seq::empty()));
    }

    /// A manager connected: one more current and one more historic manager.
    pub fn on_new_sandstorm_collection_accepted(&mut self)
        requires
            old(self).wf(),
            change_fits(old(self).spec_metrics(), MetricsChange::ManagerAccepted),
        ensures
            final(self).wf(),
            final(self).spec_metrics() == apply_change(old(self).spec_metrics(), MetricsChange::ManagerAccepted),
            final(self).spec_texts() == old(self).spec_texts().update(4, Seq::empty()).update(5, Seq::empty()),
    {
        self.metrics.current_sandstorm_connections = self.metrics.current_sandstorm_connections + 1;
        self.metrics.historic_sandstorm_connections = self.metrics.historic_sandstorm_connections + 1;
        self.current_sandstorm_connections_str = String::new();
        self.historic_sandstorm_connections_str = String::new();
        assert(self.spec_texts() =~= old(self).spec_texts().update(4, Seq::empty()).update(5, Seq::empty()));
    }

    /// A manager's connection ended: one less current manager.
    pub fn on_sandstorm_collection_finished(&mut self)
        requires
            old(self).wf(),
            change_fits(old(self).spec_metrics(), MetricsChange::ManagerFinished),
        ensures
            final(self).wf(),
            final(self).spec_metrics() == apply_change(old(self).spec_metrics(), MetricsChange::ManagerFinished),
            final(self).spec_texts() == old(self).spec_texts().update(4, Seq::empty()),
    {
        self.metrics.current_sandstorm_connections = self.metrics.current_sandstorm_connections - 1;
        self.current_sandstorm_connections_str = String::new();
        assert(self.spec_texts() =~= old(self).spec_texts().update(4, Seq::empty()));
    }

    /// Writes the text of each counter whose text was dropped; afterwards every text is that
    /// of its counter.
    pub fn update_labels_where_needed(&mut self)
        requires
            old(self).wf(),
        ensures
            final(self).wf(),
            final(self).spec_metrics() == old(self).spec_metrics(),
            final(self).spec_texts() == counter_texts(old(self).spec_metrics()),
    {
        proof {
            assert(old(self).spec_texts()[0].len() == 0 || old(self).spec_texts()[0] == counter_texts(old(self).spec_metrics())[0]);
            assert(old(self).spec_texts()[1].len() == 0 || old(self).spec_texts()[1] == counter_texts(old(self).spec_metrics())[1]);
            assert(old(self).spec_texts()[2].len() == 0 || old(self).spec_texts()[2] == counter_texts(old(self).spec_metrics())[2]);
            assert(old(self).spec_texts()[3].len() == 0 || old(self).spec_texts()[3] == counter_texts(old(self).spec_metrics())[3]);
            assert(old(self).spec_texts()[4].len() == 0 || old(self).spec_texts()[4] == counter_texts(old(self).spec_metrics())[4]);
            assert(old(self).spec_texts()[5].len() == 0 || old(self).spec_texts()[5] == counter_texts(old(self).spec_metrics())[5]);
        }
        if self.current_client_connections_str.as_str().is_empty() {
            self.current_client_connections_str = decimal_string(self.metrics.current_client_connections as u128);
        }
        if self.historic_client_connections_str.as_str().is_empty() {
            self.historic_client_connections_str = decimal_string(self.metrics.historic_client_connections as u128);
        }
        if self.client_bytes_sent_str.as_str().is_empty() {
            self.client_bytes_sent_str = bytes_string(self.metrics.client_bytes_sent);
        }
        if self.client_bytes_received_str.as_str().is_empty() {
            self.client_bytes_received_str = bytes_string(self.metrics.client_bytes_received);
        }
        if self.current_sandstorm_connections_str.as_str().is_empty() {
            self.current_sandstorm_connections_str = decimal_string(self.metrics.current_sandstorm_connections as u128);
        }
        if self.historic_sandstorm_connections_str.as_str().is_empty() {
            self.historic_sandstorm_connections_str = decimal_string(
                self.metrics.historic_sandstorm_connections as u128,
            );
        }
        assert(self.spec_texts() =~= counter_texts(old(self).spec_metrics()));
    }

    /// The rows shown: each counter's label and its text.
    pub fn rows(&mut self) -> (rows: Vec<(&'static str, String)>)
        requires
            old(self).wf(),
        ensures
            final(self).wf(),
            final(self).spec_metrics() == old(self).spec_metrics(),
            rows@.len() == 6,
            forall|i: int| 0 <= i < 6 ==> (#[trigger] rows@[i]).1@ == counter_texts(old(self).spec_metrics())[i],
            rows@[0].0 == CURRENT_CLIENTS_LABEL,
            rows@[1].0 == HISTORIC_CLIENTS_LABEL,
            rows@[2].0 == BYTES_SENT_LABEL,
            rows@[3].0 == BYTES_RECEIVED_LABEL,
            rows@[4].0 == CURRENT_MANAGERS_LABEL,
            rows@[5].0 == HISTORIC_MANAGERS_LABEL,
    {
        self.update_labels_where_needed();
        let rows = vec![
            (CURRENT_CLIENTS_LABEL, self.current_client_connections_str.clone()),
            (HISTORIC_CLIENTS_LABEL, self.historic_client_connections_str.clone()),
            (BYTES_SENT_LABEL, self.client_bytes_sent_str.clone()),
            (BYTES_RECEIVED_LABEL, self.client_bytes_received_str.clone()),
            (CURRENT_MANAGERS_LABEL, self.current_sandstorm_connections_str.clone()),
            (HISTORIC_MANAGERS_LABEL, self.historic_sandstorm_connections_str.clone()),
        ];
        assert(forall|i: int| 0 <= i < 6 ==> (#[trigger] rows@[i]).1@ == self.spec_texts()[i]);
        rows
    }
}

/// An amount of bytes as the counters show it.
fn bytes_string(bytes: u64) -> (s: String)
    ensures
        s@ == bytes_text(bytes),
{
    let mut s = PrettyByteDisplayer(bytes as usize).to_string();
    push_str(&mut s, " (");
    push_str(&mut s, decimal_string(bytes as u128).as_str());
    push_str(&mut s, ")");
    s
}

} // verus!
