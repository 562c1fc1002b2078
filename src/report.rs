//! The diagnostic text of an inspection, line by line.
use vstd::prelude::*;
use crate::model::{is_first_connected, pair_count, Connector, DisplayMode, DriverVersion};
use crate::text::{decimal, push_decimal, push_signed_decimal, signed_decimal};

verus! {

/// `Driver: <name> (<desc>) version <major>.<minor>.<patch> (<date>)`
pub open spec fn driver_line_of(v: DriverVersion) -> Seq<char> {
    "Driver: "@ + v.name@ + " ("@ + v.desc@ + ") version "@ + signed_decimal(v.major as int) + "."@
        + signed_decimal(v.minor as int) + "."@ + signed_decimal(v.patch as int) + " ("@ + v.date@
        + ")\n"@
}

pub open spec fn connector_header_of(c: Connector) -> Seq<char> {
    "Found connector connector_id: "@ + decimal(c.connector_id as nat) + " connector_type:"@
        + decimal(c.connector_type as nat) + " connector_type_id:"@ + decimal(
        c.connector_type_id as nat,
    ) + "\n"@
}

pub open spec fn prop_line_of(prop: u32, value: u64) -> Seq<char> {
    "  Prop: ("@ + decimal(prop as nat) + ":"@ + decimal(value as nat) + ")\n"@
}

/// The lines of the first `n` property/value pairs of `c`.
pub open spec fn props_text_of(c: Connector, n: nat) -> Seq<char>
    decreases n,
{
    if n == 0 {
        Seq::empty()
    } else {
        props_text_of(c, (n - 1) as nat) + prop_line_of(
            c.props@[n - 1],
            c.prop_values@[n - 1],
        )
    }
}

pub open spec fn mode_line_of(m: DisplayMode, connector_id: u32) -> Seq<char> {
    "  Found mode "@ + m.name@ + "@"@ + decimal(m.refresh_rate as nat) + " for connector "@
        + decimal(connector_id as nat) + "\n"@
}

/// The lines of the first `n` modes of `c`.
pub open spec fn modes_text_of(c: Connector, n: nat) -> Seq<char>
    decreases n,
{
    if n == 0 {
        Seq::empty()
    } else {
        modes_text_of(c, (n - 1) as nat) + mode_line_of(c.modes@[n - 1], c.connector_id)
    }
}

/// A connector's header, then its property/value pairs, then its modes.
pub open spec fn connector_text_of(c: Connector) -> Seq<char> {
    connector_header_of(c) + props_text_of(c, pair_count(c)) + modes_text_of(c, c.modes.len() as nat)
}

/// The text of the first `n` connectors of `cs`.
pub open spec fn connectors_text_of(cs: Seq<Connector>, n: nat) -> Seq<char>
    decreases n,
{
    if n == 0 {
        Seq::empty()
    } else {
        connectors_text_of(cs, (n - 1) as nat) + connector_text_of(cs[n - 1])
    }
}

pub open spec fn refresh_line_of(m: DisplayMode) -> Seq<char> {
    "Refresh rate: "@ + decimal(m.wsi_refresh_rate as nat) + "\n"@
}

pub open spec fn plane_line_of(plane: u32) -> Seq<char> {
    "Plane : "@ + decimal(plane as nat) + "\n"@
}

/// The lines of the first `n` planes.
pub open spec fn planes_text_of(planes: Seq<u32>, n: nat) -> Seq<char>
    decreases n,
{
    if n == 0 {
        Seq::empty()
    } else {
        planes_text_of(planes, (n - 1) as nat) + plane_line_of(planes[n - 1])
    }
}

fn push_driver_line(out: &mut String, v: &DriverVersion)
    ensures
        final(out)@ == old(out)@ + driver_line_of(*v),
{
    out.append("Driver: ");
    out.append(v.name.as_str());
    out.append(" (");
    out.append(v.desc.as_str());
    out.append(") version ");
    push_signed_decimal(out, v.major as i64);
    out.append(".");
    push_signed_decimal(out, v.minor as i64);
    out.append(".");
    push_signed_decimal(out, v.patch as i64);
    out.append(" (");
    out.append(v.date.as_str());
    out.append(")\n");
    assert(out@ =~= old(out)@ + driver_line_of(*v));
}

/// The line that names the driver and its version.
pub fn driver_line(v: &DriverVersion) -> (r: String)
    ensures
        r@ == driver_line_of(*v),
{
    let mut out = String::new();
    push_driver_line(&mut out, v);
    assert(out@ =~= driver_line_of(*v));
    out
}

fn push_connector_header(out: &mut String, c: &Connector)
    ensures
        final(out)@ == old(out)@ + connector_header_of(*c),
{
    out.append("Found connector connector_id: ");
    push_decimal(out, c.connector_id as u64);
    out.append(" connector_type:");
    push_decimal(out, c.connector_type as u64);
    out.append(" connector_type_id:");
    push_decimal(out, c.connector_type_id as u64);
    out.append("\n");
    assert(out@ =~= old(out)@ + connector_header_of(*c));
}

fn push_props(out: &mut String, c: &Connector)
    ensures
        final(out)@ == old(out)@ + props_text_of(*c, pair_count(*c)),
{
    let pairs = c.property_pairs();
    let mut i: usize = 0;
    while i < pairs.len()
        invariant
            i <= pairs.len(),
            pairs.len() == pair_count(*c),
            forall|j: int|
                0 <= j < pairs.len() ==> #[trigger] pairs@[j] == (c.props@[j], c.prop_values@[j]),
            out@ == old(out)@ + props_text_of(*c, i as nat),
        decreases pairs.len() - i,
    {
        let (prop, value) = pairs[i];
        let ghost before = out@;
        out.append("  Prop: (");
        push_decimal(out, prop as u64);
        out.append(":");
        push_decimal(out, value);
        out.append(")\n");
        assert(out@ =~= before + prop_line_of(prop, value));
        assert(pairs@[i as int] == (c.props@[i as int], c.prop_values@[i as int]));
        assert(out@ =~= old(out)@ + props_text_of(*c, (i + 1) as nat));
        i = i + 1;
    }
}

fn push_modes(out: &mut String, c: &Connector)
    ensures
        final(out)@ == old(out)@ + modes_text_of(*c, c.modes.len() as nat),
{
    let mut i: usize = 0;
    while i < c.modes.len()
        invariant
            i <= c.modes.len(),
            out@ == old(out)@ + modes_text_of(*c, i as nat),
        decreases c.modes.len() - i,
    {
        let m = &c.modes[i];
        let ghost before = out@;
        out.append("  Found mode ");
        out.append(m.name.as_str());
        out.append("@");
        push_decimal(out, m.refresh_rate as u64);
        out.append(" for connector ");
        push_decimal(out, c.connector_id as u64);
        out.append("\n");
        assert(out@ =~= before + mode_line_of(*m, c.connector_id));
        assert(out@ =~= old(out)@ + modes_text_of(*c, (i + 1) as nat));
        i = i + 1;
    }
}

fn push_connector(out: &mut String, c: &Connector)
    ensures
        final(out)@ == old(out)@ + connector_text_of(*c),
{
    let ghost start = out@;
    push_connector_header(out, c);
    push_props(out, c);
    push_modes(out, c);
    assert(out@ =~= start + connector_text_of(*c));
}

/// The lines that describe one connector: its identity, every
/// property/value pair and every mode.
pub fn connector_text(c: &Connector) -> (r: String)
    ensures
        r@ == connector_text_of(*c),
{
    let mut out = String::new();
    push_connector(&mut out, c);
    assert(out@ =~= connector_text_of(*c));
    out
}

/// The outcome of a successful inspection: everything the device reported,
/// with the position of the chosen connector.
#[derive(Clone, Debug)]
pub struct Report {
    pub version: DriverVersion,
    /// All connectors, in the order the device listed them.
    pub connectors: Vec<Connector>,
    /// Position in `connectors` of the connector chosen for display.
    pub selected: usize,
    pub planes: Vec<u32>,
}

/// The refresh-rate line of the chosen mode, when a mode has been chosen.
pub open spec fn selection_text_of(r: Report) -> Seq<char> {
    if r.selected < r.connectors.len() && r.connectors@[r.selected as int].modes.len() > 0 {
        refresh_line_of(r.connectors@[r.selected as int].modes@[0])
    } else {
        Seq::empty()
    }
}

/// The driver line, every connector, the chosen refresh rate, then every plane.
pub open spec fn report_text_of(r: Report) -> Seq<char> {
    driver_line_of(r.version) + connectors_text_of(r.connectors@, r.connectors.len() as nat)
        + selection_text_of(r) + planes_text_of(r.planes@, r.planes.len() as nat)
}

impl Report {
    /// The chosen connector is the first connected one, and it has a mode.
    pub open spec fn wf(&self) -> bool {
        &&& is_first_connected(self.connectors@, self.selected as int)
        &&& self.connectors@[self.selected as int].modes.len() > 0
    }

    /// The connector chosen for display.
    pub fn selected_connector(&self) -> (r: Option<&Connector>)
        ensures
            self.selected < self.connectors.len() ==> r == Some(&self.connectors@[self.selected as int]),
            self.selected >= self.connectors.len() ==> r is None,
    {
        if self.selected < self.connectors.len() {
            Some(&self.connectors[self.selected])
        } else {
            None
        }
    }

    /// The chosen mode: the first mode of the chosen connector.
    pub fn selected_mode(&self) -> (r: Option<&DisplayMode>)
        ensures
            self.selected < self.connectors.len() && self.connectors@[self.selected as int].modes.len() > 0
                ==> r == Some(&self.connectors@[self.selected as int].modes@[0]),
            !(self.selected < self.connectors.len() && self.connectors@[self.selected as int].modes.len() > 0)
                ==> r is None,
    {
        if self.selected < self.connectors.len() && self.connectors[self.selected].modes.len() > 0 {
            Some(&self.connectors[self.selected].modes[0])
        } else {
            None
        }
    }

    /// The full diagnostic text.
    pub fn text(&self) -> (r: String)
        ensures
            r@ == report_text_of(*self),
    {
        let mut out = String::new();
        push_driver_line(&mut out, &self.version);
        let ghost after_driver = out@;
        let mut i: usize = 0;
        while i < self.connectors.len()
            invariant
                i <= self.connectors.len(),
                out@ == after_driver + connectors_text_of(self.connectors@, i as nat),
            decreases self.connectors.len() - i,
        {
            push_connector(&mut out, &self.connectors[i]);
            assert(out@ =~= after_driver + connectors_text_of(self.connectors@, (i + 1) as nat));
            i = i + 1;
        }
        let ghost after_connectors = out@;
        match self.selected_mode() {
            Some(m) => {
                out.append("Refresh rate: ");
                push_decimal(&mut out, m.wsi_refresh_rate as u64);
                out.append("\n");
            },
            None => {},
        }
        assert(out@ =~= after_connectors + selection_text_of(*self));
        let ghost after_selection = out@;
        let mut k: usize = 0;
        while k < self.planes.len()
            invariant
                k <= self.planes.len(),
                out@ == after_selection + planes_text_of(self.planes@, k as nat),
            decreases self.planes.len() - k,
        {
            let ghost before = out@;
            out.append("Plane : ");
            push_decimal(&mut out, self.planes[k] as u64);
            out.append("\n");
            assert(out@ =~= before + plane_line_of(self.planes@[k as int]));
            assert(out@ =~= after_selection + planes_text_of(self.planes@, (k + 1) as nat));
            k = k + 1;
        }
        assert(out@ =~= report_text_of(*self));
        out
    }
}

} // verus!
