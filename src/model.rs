//! The read-only snapshot of what a DRM device reports.
use vstd::prelude::*;

verus! {

/// Connection state of a connector, as the kernel reports it.
#[derive(Clone, Copy, Debug, PartialEq, Eq, Structural)]
pub enum ConnectionState {
    Connected,
    Disconnected,
    Unknown,
}

impl ConnectionState {
    /// Decodes the kernel's status code: 1 is connected, 2 disconnected,
    /// anything else unknown.
    pub fn from_code(code: u32) -> (r: ConnectionState)
        ensures
            code == 1 ==> r == ConnectionState::Connected,
            code == 2 ==> r == ConnectionState::Disconnected,
            code != 1 && code != 2 ==> r == ConnectionState::Unknown,
    {
        if code == 1 {
            ConnectionState::Connected
        } else if code == 2 {
            ConnectionState::Disconnected
        } else {
            ConnectionState::Unknown
        }
    }

    pub fn is_connected(&self) -> (r: bool)
        ensures
            r == (*self == ConnectionState::Connected),
    {
        match self {
            ConnectionState::Connected => true,
            _ => false,
        }
    }
}

/// One timing configuration that a connector supports.
#[derive(Clone, Debug)]
pub struct DisplayMode {
    /// Human-readable name, such as `1920x1080`.
    pub name: String,
    /// The nominal vertical refresh rate reported by the driver, in Hz.
    pub refresh_rate: u32,
    /// The refresh rate as a window-system interface expects it, in mHz,
    /// computed from the pixel clock and the totals.
    pub wsi_refresh_rate: u32,
}

/// The identity of the kernel driver behind the device.
#[derive(Clone, Debug)]
pub struct DriverVersion {
    pub name: String,
    pub desc: String,
    pub major: i32,
    pub minor: i32,
    pub patch: i32,
    pub date: String,
}

/// A display output port with its modes and properties.
///
/// `props` and `prop_values` are parallel: the property at index `i` has the
/// value at index `i`.
#[derive(Clone, Debug)]
pub struct Connector {
    pub connector_id: u32,
    pub connector_type: u32,
    pub connector_type_id: u32,
    pub connection: ConnectionState,
    /// Supported modes, in the order the driver reported them.
    pub modes: Vec<DisplayMode>,
    pub props: Vec<u32>,
    pub prop_values: Vec<u64>,
}

/// Number of property/value pairs: properties without a value are left out.
pub open spec fn pair_count(c: Connector) -> nat {
    if c.props.len() <= c.prop_values.len() {
        c.props.len() as nat
    } else {
        c.prop_values.len() as nat
    }
}

impl Connector {
    /// Each property identifier with the value at the same position.
    pub fn property_pairs(&self) -> (r: Vec<(u32, u64)>)
        ensures
            r.len() == pair_count(*self),
            forall|i: int|
                0 <= i < r.len() ==> #[trigger] r@[i] == (self.props@[i], self.prop_values@[i]),
    {
        let n: usize = if self.props.len() <= self.prop_values.len() {
            self.props.len()
        } else {
            self.prop_values.len()
        };
        let mut pairs: Vec<(u32, u64)> = Vec::new();
        let mut i: usize = 0;
        while i < n
            invariant
                n == pair_count(*self),
                n <= self.props.len(),
                n <= self.prop_values.len(),
                i <= n,
                pairs.len() == i,
                forall|j: int|
                    0 <= j < i ==> #[trigger] pairs@[j] == (self.props@[j], self.prop_values@[j]),
            decreases n - i,
        {
            pairs.push((self.props[i], self.prop_values[i]));
            i = i + 1;
        }
        pairs
    }
}

/// `i` is the position of the first connected connector of `cs`.
pub open spec fn is_first_connected(cs: Seq<Connector>, i: int) -> bool {
    &&& 0 <= i < cs.len()
    &&& cs[i].connection == ConnectionState::Connected
    &&& forall|j: int| 0 <= j < i ==> #[trigger] cs[j].connection != ConnectionState::Connected
}

/// The choice of connector depends on the sequence alone: at most one
/// position is the first connected one, so no later connected connector is
/// ever chosen in its place.
pub proof fn first_connected_is_unique(cs: Seq<Connector>, i: int, j: int)
    requires
        is_first_connected(cs, i),
        is_first_connected(cs, j),
    ensures
        i == j,
{
    if i < j {
        assert(cs[i].connection != ConnectionState::Connected);
    } else if j < i {
        assert(cs[j].connection != ConnectionState::Connected);
    }
}

/// No connector of `cs` is connected.
pub open spec fn none_connected(cs: Seq<Connector>) -> bool {
    forall|j: int| 0 <= j < cs.len() ==> #[trigger] cs[j].connection != ConnectionState::Connected
}

/// Picks the first connector, in the order given, whose state is connected.
/// Only one display is ever chosen.
pub fn first_connected(cs: &Vec<Connector>) -> (r: Option<usize>)
    ensures
        match r {
            Some(i) => is_first_connected(cs@, i as int),
            None => none_connected(cs@),
        },
{
    let mut i: usize = 0;
    while i < cs.len()
        invariant
            i <= cs.len(),
            forall|j: int| 0 <= j < i ==> #[trigger] cs@[j].connection != ConnectionState::Connected,
        decreases cs.len() - i,
    {
        if cs[i].connection.is_connected() {
            return Some(i);
        }
        i = i + 1;
    }
    None
}

/// Picks the preferred mode of a connector: the first one the driver
/// reported, if there is any.
pub fn preferred_mode(c: &Connector) -> (r: Option<usize>)
    ensures
        c.modes.len() > 0 ==> r == Some(0usize),
        c.modes.len() == 0 ==> r is None,
{
    if c.modes.len() > 0 {
        Some(0)
    } else {
        None
    }
}

} // verus!
