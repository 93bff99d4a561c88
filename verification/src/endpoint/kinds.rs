//! Endpoint kinds: what an endpoint measures or controls, with the
//! numeric code, the name and the unit of each.
use vstd::prelude::*;
use vstd::string::StringExecFns;

use crate::error::IotError;

verus! {

/// The kind of an endpoint. Each known kind has a 16-bit code; a code
/// that is not known is kept as it is in [`EpKind::Unknown`].
#[derive(Debug, Clone, Copy, PartialEq, Eq, Structural)]
pub enum EpKind {
    /// Temperature in degrees Celsius.
    Temperature,
    /// Relative humidity in percent.
    Humidity,
    /// Pressure in kPa.
    Pressure,
    /// CO2 content in ppm.
    Co2,
    /// State, on or off.
    State,
    /// Brightness in percent.
    Brightness,
    /// Colour, as red, green and blue.
    Colour,
    /// A kind with no entry in the table, by its code.
    Unknown(u16),
}

/// The kind that a code stands for: the table entry with that code,
/// else an unknown kind that keeps the code.
pub open spec fn kind_of_code(v: u16) -> EpKind {
    if v == 1 {
        EpKind::Temperature
    } else if v == 2 {
        EpKind::Humidity
    } else if v == 3 {
        EpKind::Pressure
    } else if v == 4 {
        EpKind::Co2
    } else if v == 5 {
        EpKind::State
    } else if v == 6 {
        EpKind::Brightness
    } else if v == 7 {
        EpKind::Colour
    } else {
        EpKind::Unknown(v)
    }
}

/// The kind that a lower-case name stands for, if any.
pub open spec fn kind_of_name(name: Seq<char>) -> Option<EpKind> {
    if name == "temperature"@ {
        Some(EpKind::Temperature)
    } else if name == "humidity"@ {
        Some(EpKind::Humidity)
    } else if name == "pressure"@ {
        Some(EpKind::Pressure)
    } else if name == "co2"@ {
        Some(EpKind::Co2)
    } else if name == "state"@ {
        Some(EpKind::State)
    } else if name == "brightness"@ {
        Some(EpKind::Brightness)
    } else if name == "colour"@ {
        Some(EpKind::Colour)
    } else {
        None
    }
}

/// What `str::to_lowercase` returns for a text.
pub uninterp spec fn lowercased(text: Seq<char>) -> Seq<char>;

/// What `u16::from_str` accepts: the number that a text denotes, if it
/// denotes one that fits in 16 bits.
pub uninterp spec fn parsed_u16(text: Seq<char>) -> Option<u16>;

/// Calls `str::to_lowercase`. The result is named [`lowercased`]: the
/// lower-case form that Unicode gives, a function of the text alone.
#[verifier::external_body]
pub(crate) fn to_lower(src: &str) -> (r: String)
    ensures
        r@ == lowercased(src@),
{
    src.to_lowercase()
}

/// Calls `u16::from_str`, which parses a decimal number. The result is
/// named [`parsed_u16`]; an error of the parser becomes `None`.
#[verifier::external_body]
fn parse_u16(src: &str) -> (r: Option<u16>)
    ensures
        r == parsed_u16(src@),
{
    <u16 as core::str::FromStr>::from_str(src).ok()
}

/// Whether a text equals a literal name.
fn is_name(text: &String, name: &str) -> (r: bool)
    ensures
        r == (text@ == name@),
{
    let n = String::from_str(name);
    *text == n
}

/// Chooses the kind for a text, given its lower-case form taken twice
/// (`name`) and what its lower-case form parses to as a number (`number`):
/// a known name wins, then a numeric code, else the text is rejected.
pub fn select_endpoint_kind(name: &String, number: Option<u16>) -> (r: Result<EpKind, IotError>)
    ensures
        r == kind_selection(name@, number),
{
    match EpKind::from_lower_name(name) {
        Some(k) => Ok(k),
        None => match number {
            Some(v) => Ok(EpKind::Unknown(v)),
            None => Err(IotError::UnrecognisedEndpoint),
        },
    }
}

/// The choice that [`select_endpoint_kind`] makes.
pub open spec fn kind_selection(name: Seq<char>, number: Option<u16>) -> Result<EpKind, IotError> {
    match kind_of_name(name) {
        Some(k) => Ok(k),
        None => match number {
            Some(v) => Ok(EpKind::Unknown(v)),
            None => Err(IotError::UnrecognisedEndpoint),
        },
    }
}

/// Parses an endpoint kind from a text: a name of the table in any
/// letter case, or else a decimal code, which gives [`EpKind::Unknown`].
pub fn parse_endpoint_kind(src: &str) -> (r: Result<EpKind, IotError>)
    ensures
        r == kind_selection(lowercased(lowercased(src@)), parsed_u16(lowercased(src@))),
{
    let lower = to_lower(src);
    let name = to_lower(lower.as_str());
    let number = parse_u16(lower.as_str());
    select_endpoint_kind(&name, number)
}

impl EpKind {
    /// The 16-bit code of this kind.
    pub open spec fn spec_code(&self) -> u16 {
        match self {
            EpKind::Temperature => 1,
            EpKind::Humidity => 2,
            EpKind::Pressure => 3,
            EpKind::Co2 => 4,
            EpKind::State => 5,
            EpKind::Brightness => 6,
            EpKind::Colour => 7,
            EpKind::Unknown(v) => *v,
        }
    }

    /// The lower-case name of this kind; `unknown` where it has none.
    pub open spec fn spec_name(&self) -> Seq<char> {
        match self {
            EpKind::Temperature => "temperature"@,
            EpKind::Humidity => "humidity"@,
            EpKind::Pressure => "pressure"@,
            EpKind::Co2 => "co2"@,
            EpKind::State => "state"@,
            EpKind::Brightness => "brightness"@,
            EpKind::Colour => "colour"@,
            EpKind::Unknown(_) => "unknown"@,
        }
    }

    /// The unit of this kind; `unknown` where it has none.
    pub open spec fn spec_unit(&self) -> Seq<char> {
        match self {
            EpKind::Temperature => "°C"@,
            EpKind::Humidity => "%RH"@,
            EpKind::Pressure => "kPa"@,
            EpKind::Co2 => "ppm"@,
            EpKind::State => "bool"@,
            EpKind::Brightness => "%"@,
            EpKind::Colour => "rgb"@,
            EpKind::Unknown(_) => "unknown"@,
        }
    }

    /// The 16-bit code of this kind.
    pub fn code(&self) -> (r: u16)
        ensures
            r == self.spec_code(),
    {
        match self {
            EpKind::Temperature => 1,
            EpKind::Humidity => 2,
            EpKind::Pressure => 3,
            EpKind::Co2 => 4,
            EpKind::State => 5,
            EpKind::Brightness => 6,
            EpKind::Colour => 7,
            EpKind::Unknown(v) => *v,
        }
    }

    /// The kind that a code stands for: the table entry with that code,
    /// else [`EpKind::Unknown`] with the code kept.
    pub fn from_code(v: u16) -> (r: EpKind)
        ensures
            r == kind_of_code(v),
    {
        if v == 1 {
            EpKind::Temperature
        } else if v == 2 {
            EpKind::Humidity
        } else if v == 3 {
            EpKind::Pressure
        } else if v == 4 {
            EpKind::Co2
        } else if v == 5 {
            EpKind::State
        } else if v == 6 {
            EpKind::Brightness
        } else if v == 7 {
            EpKind::Colour
        } else {
            EpKind::Unknown(v)
        }
    }

    /// The kind with the given lower-case name, if the table has it.
    pub fn from_lower_name(name: &String) -> (r: Option<EpKind>)
        ensures
            r == kind_of_name(name@),
    {
        if is_name(name, "temperature") {
            Some(EpKind::Temperature)
        } else if is_name(name, "humidity") {
            Some(EpKind::Humidity)
        } else if is_name(name, "pressure") {
            Some(EpKind::Pressure)
        } else if is_name(name, "co2") {
            Some(EpKind::Co2)
        } else if is_name(name, "state") {
            Some(EpKind::State)
        } else if is_name(name, "brightness") {
            Some(EpKind::Brightness)
        } else if is_name(name, "colour") {
            Some(EpKind::Colour)
        } else {
            None
        }
    }

    /// The kind that a name stands for, in any letter case.
    pub fn from_str(src: &str) -> (r: Option<EpKind>)
        ensures
            r == kind_of_name(lowercased(src@)),
    {
        let lower = to_lower(src);
        EpKind::from_lower_name(&lower)
    }

    /// The lower-case name of this kind, as it is displayed.
    pub fn name(&self) -> (r: String)
        ensures
            r@ == self.spec_name(),
    {
        match self {
            EpKind::Temperature => String::from_str("temperature"),
            EpKind::Humidity => String::from_str("humidity"),
            EpKind::Pressure => String::from_str("pressure"),
            EpKind::Co2 => String::from_str("co2"),
            EpKind::State => String::from_str("state"),
            EpKind::Brightness => String::from_str("brightness"),
            EpKind::Colour => String::from_str("colour"),
            EpKind::Unknown(_) => String::from_str("unknown"),
        }
    }

    /// The unit in which values of this kind are given.
    pub fn unit(&self) -> (r: String)
        ensures
            r@ == self.spec_unit(),
    {
        match self {
            EpKind::Temperature => String::from_str("°C"),
            EpKind::Humidity => String::from_str("%RH"),
            EpKind::Pressure => String::from_str("kPa"),
            EpKind::Co2 => String::from_str("ppm"),
            EpKind::State => String::from_str("bool"),
            EpKind::Brightness => String::from_str("%"),
            EpKind::Colour => String::from_str("rgb"),
            EpKind::Unknown(_) => String::from_str("unknown"),
        }
    }

    /// A help text that lists the known kinds, each with unit and code.
    pub fn variants() -> (r: String)
        ensures
            r@ == variants_text(),
    {
        String::from_str(
            "'temperature' (unit: °C, id: 1), 'humidity' (unit: %RH, id: 2), 'pressure' (unit: kPa, id: 3), 'CO2' (unit: ppm, id: 4), 'state' (unit: bool, id: 5), 'brightness' (unit: %, id: 6), 'colour' (unit: rgb, id: 7), RAW_ID (no unit)",
        )
    }
}

/// The text of [`EpKind::variants`].
pub open spec fn variants_text() -> Seq<char> {
    "'temperature' (unit: °C, id: 1), 'humidity' (unit: %RH, id: 2), 'pressure' (unit: kPa, id: 3), 'CO2' (unit: ppm, id: 4), 'state' (unit: bool, id: 5), 'brightness' (unit: %, id: 6), 'colour' (unit: rgb, id: 7), RAW_ID (no unit)"@
}

/// A code and its kind determine each other: the code of the kind of a
/// code is that code.
pub proof fn lemma_code_of_kind_of_code(v: u16)
    ensures
        kind_of_code(v).spec_code() == v,
{
}

/// The kind of the code of a kind is that kind, unless the kind is an
/// [`EpKind::Unknown`] that holds the code of a table entry.
pub proof fn lemma_kind_of_code_of_kind(k: EpKind)
    requires
        !(k matches EpKind::Unknown(v) && 1 <= v <= 7),
    ensures
        kind_of_code(k.spec_code()) == k,
{
}

} // verus!
