use vstd::prelude::*;

verus! {

/// What kind of physical sensor took a measurement.
#[derive(Debug, Clone, Copy, PartialEq, Eq, Structural)]
pub enum SensorKind {
    /// Water temperature (°C).
    Temperature,
    /// Water acidity/alkalinity (0–14 scale).
    Ph,
    /// Dissolved oxygen in water (mg/L).
    DissolvedOxygen,
    /// How cloudy the water is (NTU).
    Turbidity,
    /// Dissolved salts (µS/cm).
    Conductivity,
}

/// The unit of a sensor measurement.
#[derive(Debug, Clone, Copy, PartialEq, Eq, Structural)]
pub enum Unit {
    /// Degrees Celsius.
    Celsius,
    /// Dimensionless pH, 0–14.
    PhScale,
    /// Milligrams per litre, for dissolved oxygen.
    MilligramPerLiter,
    /// Nephelometric turbidity units.
    Ntu,
    /// Microsiemens per centimetre, for conductivity.
    MicrosiemensPerCm,
}

impl SensorKind {
    /// The physically sensible range `(min, max)` of a reading of this kind,
    /// in the kind's unit; a reading outside it is rejected.
    pub open spec fn range_spec(self) -> (int, int) {
        match self {
            SensorKind::Temperature => (-10, 50),
            SensorKind::Ph => (0, 14),
            SensorKind::DissolvedOxygen => (0, 20),
            SensorKind::Turbidity => (0, 1000),
            SensorKind::Conductivity => (0, 5000),
        }
    }

    /// The inclusive range `(min, max)` that a valid reading of this kind
    /// lies in: -10–50 °C for temperature, 0–14 for pH, 0–20 mg/L for
    /// dissolved oxygen, 0–1000 NTU for turbidity, 0–5000 µS/cm for
    /// conductivity.
    pub fn valid_range(&self) -> (res: (i32, i32))
        ensures
            res.0 == self.range_spec().0,
            res.1 == self.range_spec().1,
    {
        match self {
            SensorKind::Temperature => (-10, 50),
            SensorKind::Ph => (0, 14),
            SensorKind::DissolvedOxygen => (0, 20),
            SensorKind::Turbidity => (0, 1000),
            SensorKind::Conductivity => (0, 5000),
        }
    }
}

} // verus!
