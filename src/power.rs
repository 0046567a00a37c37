use vstd::prelude::*;
use vstd::string::StringExecFns;
use crate::error::Error;

verus! {

/// The value a battery bus holds while it is switched on.
pub const BUS_ON: i32 = 1;

/// True when at least one bus in the battery-bus array is on.
pub open spec fn any_bus_on(buses: Seq<i32>) -> bool {
    buses.contains(BUS_ON)
}

/// Reads the battery-bus array: power is present when any bus holds the
/// "on" value.
pub fn battery_on(buses: &[i32]) -> (r: bool)
    ensures
        r == any_bus_on(buses@),
{
    let mut i: usize = 0;
    while i < buses.len()
        invariant
            0 <= i <= buses@.len(),
            forall|j: int| 0 <= j < i ==> buses@[j] != BUS_ON,
        decreases buses@.len() - i,
    {
        if buses[i] == BUS_ON {
            assert(buses@[i as int] == BUS_ON);
            return true;
        }
        i += 1;
    }
    proof {
        if buses@.contains(BUS_ON) {
            let k = choose|k: int| 0 <= k < buses@.len() && buses@[k] == BUS_ON;
            assert(buses@[k] != BUS_ON);
        }
    }
    false
}

/// The power sources read on one tick.
#[derive(Clone, Copy, Debug, PartialEq, Eq, Structural)]
pub struct PowerState {
    pub battery_on: bool,
    pub gpu_on: bool,
    pub apu_on: bool,
}

impl PowerState {
    /// Any of battery, ground power unit or auxiliary power unit is on.
    pub open spec fn spec_any_on(self) -> bool {
        self.battery_on || self.gpu_on || self.apu_on
    }

    /// Builds the power state from the raw readings of one tick.
    pub fn from_readings(battery_buses: &[i32], gpu_on: bool, apu_on: bool) -> (r: PowerState)
        ensures
            r.battery_on == any_bus_on(battery_buses@),
            r.gpu_on == gpu_on,
            r.apu_on == apu_on,
    {
        PowerState { battery_on: battery_on(battery_buses), gpu_on, apu_on }
    }

    /// Whether any power source is on.
    pub fn any_on(&self) -> (r: bool)
        ensures
            r == self.spec_any_on(),
    {
        self.battery_on || self.gpu_on || self.apu_on
    }
}

/// The text shown for a flag in diagnostics.
pub open spec fn flag_text(b: bool) -> Seq<char> {
    if b {
        "true"@
    } else {
        "false"@
    }
}

/// The diagnostic line for the power state.
pub open spec fn energy_text(gpu_on: bool, battery_on: bool) -> Seq<char> {
    "GPU enabled: "@ + flag_text(gpu_on) + ", Battery enabled: "@ + flag_text(battery_on)
}

/// Renders the ground power and battery flags as one diagnostic line.
pub fn render_energy(gpu_on: bool, battery_on: bool) -> (r: String)
    ensures
        r@ == energy_text(gpu_on, battery_on),
{
    let mut s = String::from_str("GPU enabled: ");
    s.append(if gpu_on { "true" } else { "false" });
    s.append(", Battery enabled: ");
    s.append(if battery_on { "true" } else { "false" });
    proof {
        reveal_strlit("GPU enabled: ");
        reveal_strlit(", Battery enabled: ");
        reveal_strlit("true");
        reveal_strlit("false");
    }
    s
}

/// The diagnostic line for one locked read of the ground power flag and the
/// battery-bus array. A failed lock gives an empty line rather than an
/// error: diagnostics never stop the tick.
pub fn energy_line(reading: Result<(bool, Vec<i32>), Error>) -> (r: String)
    ensures
        reading is Err ==> r@ == Seq::<char>::empty(),
        reading is Ok ==> r@ == energy_text(reading->Ok_0.0, any_bus_on(reading->Ok_0.1@)),
{
    match reading {
        Ok((gpu_on, buses)) => render_energy(gpu_on, battery_on(buses.as_slice())),
        Err(_) => String::new(),
    }
}

} // verus!
