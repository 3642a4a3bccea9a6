//! Value enums of the command surface.
//!
//! The command line names an object type and, for writes, a value type;
//! these enums carry those names and map them onto the plain codes and
//! checks the protocol layer works with. The command-line parsing itself,
//! with its derives, lives in the embedding program, which mirrors these
//! enums one for one.

use vstd::prelude::*;

use crate::codec::{ObjectRef, MAX_OBJECT_TYPE};
use crate::error::Error;

verus! {

/// The kind of a JSON literal supplied as a write value.
#[derive(Clone, Copy, Debug, PartialEq, Eq, Structural)]
pub enum JsonKind {
    Bool,
    Number,
    Other,
}

/// The type under which a caller-supplied write value is interpreted.
#[derive(Clone, Copy, Debug, PartialEq, Eq, Structural)]
pub enum ApplicationDataValueArg {
    Boolean,
    Real,
    Enumerated,
    EnumeratedBinary,
}

impl ApplicationDataValueArg {
    /// Which JSON kind this value type accepts.
    pub open spec fn accepts_spec(self, kind: JsonKind) -> bool {
        match self {
            ApplicationDataValueArg::Boolean => kind == JsonKind::Bool,
            ApplicationDataValueArg::EnumeratedBinary => kind == JsonKind::Bool,
            ApplicationDataValueArg::Real => kind == JsonKind::Number,
            ApplicationDataValueArg::Enumerated => false,
        }
    }

    /// Whether a literal of the given kind can be written under this type:
    /// booleans for the boolean and binary types, numbers for the real
    /// type, nothing else.
    pub fn accepts(&self, kind: JsonKind) -> (r: bool)
        ensures
            r == self.accepts_spec(kind),
    {
        match self {
            ApplicationDataValueArg::Boolean => matches!(kind, JsonKind::Bool),
            ApplicationDataValueArg::EnumeratedBinary => matches!(kind, JsonKind::Bool),
            ApplicationDataValueArg::Real => matches!(kind, JsonKind::Number),
            ApplicationDataValueArg::Enumerated => false,
        }
    }
}

/// The object types the command surface can name.
#[derive(Clone, Copy, Debug, PartialEq, Eq, Structural)]
pub enum ArgObjectType {
    ObjectAnalogInput,
    ObjectAnalogOutput,
    ObjectAnalogValue,
    ObjectBinaryInput,
    ObjectBinaryOutput,
    ObjectBinaryValue,
    ObjectCalendar,
    ObjectCommand,
    ObjectDevice,
    ObjectEventEnrollment,
    ObjectFile,
    ObjectGroup,
    ObjectLoop,
    ObjectMultiStateInput,
    ObjectMultiStateOutput,
    ObjectNotificationClass,
    ObjectProgram,
    ObjectSchedule,
    ObjectAveraging,
    ObjectMultiStateValue,
    ObjectTrendlog,
    ObjectLifeSafetyPoint,
    ObjectLifeSafetyZone,
    ObjectAccumulator,
    ObjectPulseConverter,
    ObjectEventLog,
    ObjectGlobalGroup,
    ObjectTrendLogMultiple,
    ObjectLoadControl,
    ObjectStructuredView,
    ObjectAccessDoor,
    ObjectTimer,
    ObjectAccessCredential,
    ObjectAccessPoint,
    ObjectAccessRights,
    ObjectAccessUser,
    ObjectAccessZone,
    ObjectCredentialDataInput,
    ObjectNetworkSecurity,
    ObjectBitstringValue,
    ObjectCharacterstringValue,
    ObjectDatePatternValue,
    ObjectDateValue,
    ObjectDatetimePatternValue,
    ObjectDatetimeValue,
    ObjectIntegerValue,
    ObjectLargeAnalogValue,
    ObjectOctetstringValue,
    ObjectPositiveIntegerValue,
    ObjectTimePatternValue,
    ObjectTimeValue,
    ObjectNotificationForwarder,
    ObjectAlertEnrollment,
    ObjectChannel,
    ObjectLightingOutput,
    ObjectBinaryLightingOutput,
    ObjectNetworkPort,
    Reserved,
    Proprietary,
    Invalid,
}

impl ArgObjectType {
    /// The wire code of each named object type.
    pub open spec fn code_spec(self) -> u16 {
        match self {
            ArgObjectType::ObjectAnalogInput => 0,
            ArgObjectType::ObjectAnalogOutput => 1,
            ArgObjectType::ObjectAnalogValue => 2,
            ArgObjectType::ObjectBinaryInput => 3,
            ArgObjectType::ObjectBinaryOutput => 4,
            ArgObjectType::ObjectBinaryValue => 5,
            ArgObjectType::ObjectCalendar => 6,
            ArgObjectType::ObjectCommand => 7,
            ArgObjectType::ObjectDevice => 8,
            ArgObjectType::ObjectEventEnrollment => 9,
            ArgObjectType::ObjectFile => 10,
            ArgObjectType::ObjectGroup => 11,
            ArgObjectType::ObjectLoop => 12,
            ArgObjectType::ObjectMultiStateInput => 13,
            ArgObjectType::ObjectMultiStateOutput => 14,
            ArgObjectType::ObjectNotificationClass => 15,
            ArgObjectType::ObjectProgram => 16,
            ArgObjectType::ObjectSchedule => 17,
            ArgObjectType::ObjectAveraging => 18,
            ArgObjectType::ObjectMultiStateValue => 19,
            ArgObjectType::ObjectTrendlog => 20,
            ArgObjectType::ObjectLifeSafetyPoint => 21,
            ArgObjectType::ObjectLifeSafetyZone => 22,
            ArgObjectType::ObjectAccumulator => 23,
            ArgObjectType::ObjectPulseConverter => 24,
            ArgObjectType::ObjectEventLog => 25,
            ArgObjectType::ObjectGlobalGroup => 26,
            ArgObjectType::ObjectTrendLogMultiple => 27,
            ArgObjectType::ObjectLoadControl => 28,
            ArgObjectType::ObjectStructuredView => 29,
            ArgObjectType::ObjectAccessDoor => 30,
            ArgObjectType::ObjectTimer => 31,
            ArgObjectType::ObjectAccessCredential => 32,
            ArgObjectType::ObjectAccessPoint => 33,
            ArgObjectType::ObjectAccessRights => 34,
            ArgObjectType::ObjectAccessUser => 35,
            ArgObjectType::ObjectAccessZone => 36,
            ArgObjectType::ObjectCredentialDataInput => 37,
            ArgObjectType::ObjectNetworkSecurity => 38,
            ArgObjectType::ObjectBitstringValue => 39,
            ArgObjectType::ObjectCharacterstringValue => 40,
            ArgObjectType::ObjectDatePatternValue => 41,
            ArgObjectType::ObjectDateValue => 42,
            ArgObjectType::ObjectDatetimePatternValue => 43,
            ArgObjectType::ObjectDatetimeValue => 44,
            ArgObjectType::ObjectIntegerValue => 45,
            ArgObjectType::ObjectLargeAnalogValue => 46,
            ArgObjectType::ObjectOctetstringValue => 47,
            ArgObjectType::ObjectPositiveIntegerValue => 48,
            ArgObjectType::ObjectTimePatternValue => 49,
            ArgObjectType::ObjectTimeValue => 50,
            ArgObjectType::ObjectNotificationForwarder => 51,
            ArgObjectType::ObjectAlertEnrollment => 52,
            ArgObjectType::ObjectChannel => 53,
            ArgObjectType::ObjectLightingOutput => 54,
            ArgObjectType::ObjectBinaryLightingOutput => 55,
            ArgObjectType::ObjectNetworkPort => 56,
            ArgObjectType::Reserved => 57,
            ArgObjectType::Proprietary => 128,
            ArgObjectType::Invalid => 1024,
        }
    }

    /// The wire code of this object type.
    pub fn code(&self) -> (r: u16)
        ensures
            r == self.code_spec(),
    {
        match self {
            ArgObjectType::ObjectAnalogInput => 0,
            ArgObjectType::ObjectAnalogOutput => 1,
            ArgObjectType::ObjectAnalogValue => 2,
            ArgObjectType::ObjectBinaryInput => 3,
            ArgObjectType::ObjectBinaryOutput => 4,
            ArgObjectType::ObjectBinaryValue => 5,
            ArgObjectType::ObjectCalendar => 6,
            ArgObjectType::ObjectCommand => 7,
            ArgObjectType::ObjectDevice => 8,
            ArgObjectType::ObjectEventEnrollment => 9,
            ArgObjectType::ObjectFile => 10,
            ArgObjectType::ObjectGroup => 11,
            ArgObjectType::ObjectLoop => 12,
            ArgObjectType::ObjectMultiStateInput => 13,
            ArgObjectType::ObjectMultiStateOutput => 14,
            ArgObjectType::ObjectNotificationClass => 15,
            ArgObjectType::ObjectProgram => 16,
            ArgObjectType::ObjectSchedule => 17,
            ArgObjectType::ObjectAveraging => 18,
            ArgObjectType::ObjectMultiStateValue => 19,
            ArgObjectType::ObjectTrendlog => 20,
            ArgObjectType::ObjectLifeSafetyPoint => 21,
            ArgObjectType::ObjectLifeSafetyZone => 22,
            ArgObjectType::ObjectAccumulator => 23,
            ArgObjectType::ObjectPulseConverter => 24,
            ArgObjectType::ObjectEventLog => 25,
            ArgObjectType::ObjectGlobalGroup => 26,
            ArgObjectType::ObjectTrendLogMultiple => 27,
            ArgObjectType::ObjectLoadControl => 28,
            ArgObjectType::ObjectStructuredView => 29,
            ArgObjectType::ObjectAccessDoor => 30,
            ArgObjectType::ObjectTimer => 31,
            ArgObjectType::ObjectAccessCredential => 32,
            ArgObjectType::ObjectAccessPoint => 33,
            ArgObjectType::ObjectAccessRights => 34,
            ArgObjectType::ObjectAccessUser => 35,
            ArgObjectType::ObjectAccessZone => 36,
            ArgObjectType::ObjectCredentialDataInput => 37,
            ArgObjectType::ObjectNetworkSecurity => 38,
            ArgObjectType::ObjectBitstringValue => 39,
            ArgObjectType::ObjectCharacterstringValue => 40,
            ArgObjectType::ObjectDatePatternValue => 41,
            ArgObjectType::ObjectDateValue => 42,
            ArgObjectType::ObjectDatetimePatternValue => 43,
            ArgObjectType::ObjectDatetimeValue => 44,
            ArgObjectType::ObjectIntegerValue => 45,
            ArgObjectType::ObjectLargeAnalogValue => 46,
            ArgObjectType::ObjectOctetstringValue => 47,
            ArgObjectType::ObjectPositiveIntegerValue => 48,
            ArgObjectType::ObjectTimePatternValue => 49,
            ArgObjectType::ObjectTimeValue => 50,
            ArgObjectType::ObjectNotificationForwarder => 51,
            ArgObjectType::ObjectAlertEnrollment => 52,
            ArgObjectType::ObjectChannel => 53,
            ArgObjectType::ObjectLightingOutput => 54,
            ArgObjectType::ObjectBinaryLightingOutput => 55,
            ArgObjectType::ObjectNetworkPort => 56,
            ArgObjectType::Reserved => 57,
            ArgObjectType::Proprietary => 128,
            ArgObjectType::Invalid => 1024,
        }
    }

    /// Turns the named type and an instance number into an object
    /// reference, refusing the one name whose code the codec cannot put on
    /// the wire.
    pub fn object_ref(&self, instance: u32) -> (r: Result<ObjectRef, Error>)
        ensures
            self.code_spec() <= MAX_OBJECT_TYPE ==> r == Ok::<_, Error>(ObjectRef {
                type_code: self.code_spec(),
                instance,
            }),
            self.code_spec() > MAX_OBJECT_TYPE ==> r == Err::<ObjectRef, _>(Error::Codec),
    {
        ObjectRef::new(self.code(), instance)
    }
}

} // verus!
