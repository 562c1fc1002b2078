//! The order of the device queries, and how each answer or failure decides
//! what happens next.
//!
//! The inspector makes no query itself: each step hands back the next query
//! to make, and the caller answers it with the matching event.
use vstd::prelude::*;
use crate::model::{
    first_connected, first_connected_is_unique, is_first_connected, none_connected, preferred_mode, Connector, DriverVersion,
};
use crate::report::Report;

verus! {

/// Why an inspection failed.
#[derive(Clone, Copy, Debug, PartialEq, Eq, Structural)]
pub enum InspectError {
    /// Opening the device or one of its queries failed with this OS error
    /// code, passed on unchanged.
    Os(i32),
    /// No connector reports a connected display.
    NoDisplayConnected,
    /// The chosen connector lists no mode.
    NoModesAvailable,
}

/// The answer to the pending query.
#[derive(Clone, Debug)]
pub enum Event {
    /// The device was opened.
    Opened,
    /// The pending open or query failed with this OS error code.
    Failed(i32),
    /// The driver's version.
    Version(DriverVersion),
    /// The connector identifiers of the device's resource list.
    Resources(Vec<u32>),
    /// The details of the connector that was asked for.
    ConnectorRead(Connector),
    /// The identifiers of the device's planes.
    Planes(Vec<u32>),
}

/// What the caller is to do next.
#[derive(Debug)]
pub enum Action {
    OpenDevice,
    QueryVersion,
    QueryResources,
    /// Fetch this connector, force-probing its state.
    QueryConnector(u32),
    QueryPlanes,
    /// The inspection is over, with this outcome.
    Finish(Result<Report, InspectError>),
}

#[derive(Clone, Copy, Debug, PartialEq, Eq, Structural)]
pub enum Phase {
    Opening,
    ReadingVersion,
    ReadingResources,
    ReadingConnectors,
    ReadingPlanes,
    Finished,
}

/// The state of one inspection.
#[derive(Clone, Debug)]
pub struct Inspector {
    pub phase: Phase,
    pub version: Option<DriverVersion>,
    /// The connectors to fetch, in the order the device listed them.
    pub connector_ids: Vec<u32>,
    /// The connectors fetched so far, in the same order.
    pub connectors: Vec<Connector>,
    /// Position of the chosen connector, once all are fetched.
    pub selected: usize,
}

/// `event` answers the query that is pending in `phase`.
pub open spec fn answers(phase: Phase, event: Event) -> bool {
    match event {
        Event::Failed(_) => phase != Phase::Finished,
        Event::Opened => phase == Phase::Opening,
        Event::Version(_) => phase == Phase::ReadingVersion,
        Event::Resources(_) => phase == Phase::ReadingResources,
        Event::ConnectorRead(_) => phase == Phase::ReadingConnectors,
        Event::Planes(_) => phase == Phase::ReadingPlanes,
    }
}

/// The query an unfinished inspector waits on.
pub open spec fn pending_action(s: Inspector) -> Action {
    match s.phase {
        Phase::Opening => Action::OpenDevice,
        Phase::ReadingVersion => Action::QueryVersion,
        Phase::ReadingResources => Action::QueryResources,
        Phase::ReadingConnectors => Action::QueryConnector(
            s.connector_ids@[s.connectors.len() as int],
        ),
        _ => Action::QueryPlanes,
    }
}

impl Inspector {
    pub open spec fn wf(&self) -> bool {
        &&& (self.phase == Phase::ReadingResources ==> self.version is Some)
        &&& (self.phase == Phase::ReadingConnectors ==> {
            &&& self.version is Some
            &&& self.connectors.len() < self.connector_ids.len()
        })
        &&& (self.phase == Phase::ReadingPlanes ==> {
            &&& self.version is Some
            &&& self.connectors.len() == self.connector_ids.len()
            &&& is_first_connected(self.connectors@, self.selected as int)
            &&& self.connectors@[self.selected as int].modes.len() > 0
        })
    }

    /// A fresh inspection, which first opens the device.
    pub fn start() -> (r: (Inspector, Action))
        ensures
            r.0.wf(),
            r.0.phase == Phase::Opening,
            r.1 == Action::OpenDevice,
    {
        let s = Inspector {
            phase: Phase::Opening,
            version: None,
            connector_ids: Vec::new(),
            connectors: Vec::new(),
            selected: 0,
        };
        (s, Action::OpenDevice)
    }

    pub fn is_finished(&self) -> (r: bool)
        ensures
            r == (self.phase == Phase::Finished),
    {
        match self.phase {
            Phase::Finished => true,
            _ => false,
        }
    }

    fn accepts(&self, event: &Event) -> (r: bool)
        ensures
            r == answers(self.phase, *event),
    {
        match event {
            Event::Failed(_) => !self.is_finished(),
            Event::Opened => self.phase == Phase::Opening,
            Event::Version(_) => self.phase == Phase::ReadingVersion,
            Event::Resources(_) => self.phase == Phase::ReadingResources,
            Event::ConnectorRead(_) => self.phase == Phase::ReadingConnectors,
            Event::Planes(_) => self.phase == Phase::ReadingPlanes,
        }
    }

    fn pending(&self) -> (r: Action)
        requires
            self.wf(),
        ensures
            r == pending_action(*self),
    {
        match self.phase {
            Phase::Opening => Action::OpenDevice,
            Phase::ReadingVersion => Action::QueryVersion,
            Phase::ReadingResources => Action::QueryResources,
            Phase::ReadingConnectors => Action::QueryConnector(
                self.connector_ids[self.connectors.len()],
            ),
            _ => Action::QueryPlanes,
        }
    }

    /// Takes the answer to the pending query and says what to do next.
    ///
    /// Any failure ends the inspection with that error, unchanged. An event
    /// that does not answer the pending query changes nothing, and the
    /// pending query is asked again.
    pub fn step(self, event: Event) -> (r: (Inspector, Action))
        requires
            self.wf(),
            self.phase != Phase::Finished,
        ensures
            r.0.wf(),
            !answers(self.phase, event) ==> r.0 == self && r.1 == pending_action(self),
            event is Failed ==> {
                &&& r.0.phase == Phase::Finished
                &&& r.1 == Action::Finish(Err(InspectError::Os(event->Failed_0)))
            },
            self.phase == Phase::Opening && event is Opened ==> {
                &&& r.0.phase == Phase::ReadingVersion
                &&& r.1 == Action::QueryVersion
            },
            self.phase == Phase::ReadingVersion && event is Version ==> {
                &&& r.0.phase == Phase::ReadingResources
                &&& r.0.version == Some(event->Version_0)
                &&& r.1 == Action::QueryResources
            },
            self.phase == Phase::ReadingResources && event is Resources ==> {
                let ids = event->Resources_0;
                &&& r.0.version == self.version
                &&& r.0.connector_ids == ids
                &&& r.0.connectors@ == Seq::<Connector>::empty()
                &&& ids.len() > 0 ==> r.0.phase == Phase::ReadingConnectors && r.1
                    == Action::QueryConnector(ids@[0])
                &&& ids.len() == 0 ==> r.0.phase == Phase::Finished && r.1 == Action::Finish(
                    Err(InspectError::NoDisplayConnected),
                )
            },
            self.phase == Phase::ReadingConnectors && event is ConnectorRead ==> {
                let cs = self.connectors@.push(event->ConnectorRead_0);
                &&& r.0.version == self.version
                &&& r.0.connector_ids == self.connector_ids
                &&& r.0.connectors@ == cs
                &&& cs.len() < self.connector_ids.len() ==> r.0.phase == Phase::ReadingConnectors
                    && r.1 == Action::QueryConnector(self.connector_ids@[cs.len() as int])
                &&& cs.len() == self.connector_ids.len() && none_connected(cs) ==> r.0.phase
                    == Phase::Finished && r.1 == Action::Finish(
                    Err(InspectError::NoDisplayConnected),
                )
                &&& forall|i: int|
                    cs.len() == self.connector_ids.len() && #[trigger] is_first_connected(cs, i)
                        ==> if cs[i].modes.len() == 0 {
                        r.0.phase == Phase::Finished && r.1 == Action::Finish(
                            Err(InspectError::NoModesAvailable),
                        )
                    } else {
                        r.0.phase == Phase::ReadingPlanes && r.0.selected == i && r.1
                            == Action::QueryPlanes
                    }
            },
            self.phase == Phase::ReadingPlanes && event is Planes ==> {
                &&& r.0.phase == Phase::Finished
                &&& r.1 == Action::Finish(
                    Ok(
                        (Report {
                            version: self.version->Some_0,
                            connectors: self.connectors,
                            selected: self.selected,
                            planes: event->Planes_0,
                        }),
                    ),
                )
            },
            r.1 matches Action::Finish(Ok(report)) ==> report.wf(),
    {
        if !self.accepts(&event) {
            let a = self.pending();
            return (self, a);
        }
        let Inspector { phase, version, connector_ids, mut connectors, selected } = self;
        match event {
            Event::Failed(code) => {
                let next = Inspector {
                    phase: Phase::Finished,
                    version,
                    connector_ids,
                    connectors,
                    selected,
                };
                (next, Action::Finish(Err(InspectError::Os(code))))
            },
            Event::Opened => {
                let next = Inspector {
                    phase: Phase::ReadingVersion,
                    version,
                    connector_ids,
                    connectors,
                    selected,
                };
                (next, Action::QueryVersion)
            },
            Event::Version(v) => {
                let next = Inspector {
                    phase: Phase::ReadingResources,
                    version: Some(v),
                    connector_ids,
                    connectors,
                    selected,
                };
                (next, Action::QueryResources)
            },
            Event::Resources(ids) => {
                if ids.len() == 0 {
                    let next = Inspector {
                        phase: Phase::Finished,
                        version,
                        connector_ids: ids,
                        connectors: Vec::new(),
                        selected,
                    };
                    (next, Action::Finish(Err(InspectError::NoDisplayConnected)))
                } else {
                    let first = ids[0];
                    let next = Inspector {
                        phase: Phase::ReadingConnectors,
                        version,
                        connector_ids: ids,
                        connectors: Vec::new(),
                        selected,
                    };
                    (next, Action::QueryConnector(first))
                }
            },
            Event::ConnectorRead(c) => {
                connectors.push(c);
                if connectors.len() < connector_ids.len() {
                    let id = connector_ids[connectors.len()];
                    let next = Inspector {
                        phase: Phase::ReadingConnectors,
                        version,
                        connector_ids,
                        connectors,
                        selected,
                    };
                    return (next, Action::QueryConnector(id));
                }
                match first_connected(&connectors) {
                    None => {
                        let next = Inspector {
                            phase: Phase::Finished,
                            version,
                            connector_ids,
                            connectors,
                            selected,
                        };
                        (next, Action::Finish(Err(InspectError::NoDisplayConnected)))
                    },
                    Some(i) => {
                        let mode = preferred_mode(&connectors[i]);
                        let outcome = match mode {
                            None => Action::Finish(Err(InspectError::NoModesAvailable)),
                            Some(_) => Action::QueryPlanes,
                        };
                        let phase = if mode.is_some() {
                            Phase::ReadingPlanes
                        } else {
                            Phase::Finished
                        };
                        let next = Inspector {
                            phase,
                            version,
                            connector_ids,
                            connectors,
                            selected: i,
                        };
                        proof {
                            assert forall|j: int| #[trigger]
                                is_first_connected(next.connectors@, j) implies j == i by {
                                first_connected_is_unique(next.connectors@, i as int, j);
                            }
                        }
                        (next, outcome)
                    },
                }
            },
            Event::Planes(planes) => {
                let report = Report {
                    version: version.unwrap(),
                    connectors,
                    selected,
                    planes,
                };
                let next = Inspector {
                    phase: Phase::Finished,
                    version: None,
                    connector_ids,
                    connectors: Vec::new(),
                    selected,
                };
                (next, Action::Finish(Ok(report)))
            },
        }
    }
}

} // verus!
