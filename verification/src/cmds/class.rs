//! The catalog of command classes.
//!
//! A command class groups related commands; a frame names its class by one
//! byte. The catalog is closed: a byte either identifies one of the classes
//! listed here or it identifies none.

use vstd::prelude::*;

verus! {

/// List of the Z-Wave command classes.
#[allow(non_camel_case_types)]
#[derive(Copy, Clone, Debug, PartialEq, Eq, Structural)]
pub enum CommandClass {
    NO_OPERATION,
    NODE_INFO,
    REQUEST_NODE_INFO,
    ASSIGN_IDS,
    FIND_NODES_IN_RANGE,
    GET_NODES_IN_RANGE,
    RANGE_INFO,
    CMD_COMPLETE,
    TRANSFER_PRESENTATION,
    TRANSFER_NODE_INFO,
    TRANSFER_RANGE_INFO,
    TRANSFER_END,
    ASSIGN_RETURN_ROUTE,
    NEW_NODE_REGISTERED,
    NEW_RANGE_REGISTERED,
    TRANSFER_NEW_PRIMARY_COMPLETE,
    AUTOMATIC_CONTROLLER_UPDATE_START,
    SUC_NODE_ID,
    SET_SUC,
    SET_SUC_ACK,
    ASSIGN_SUC_RETURN_ROUTE,
    STATIC_ROUTE_REQUEST,
    LOST,
    ACCEPT_LOST,
    NOP_POWER,
    RESERVE_NODE_IDS,
    RESERVED_IDS,
    BASIC,
    CONTROLLER_REPLICATION,
    APPLICATION_STATUS,
    ZIP_SERVICES,
    ZIP_SERVER,
    SWITCH_BINARY,
    SWITCH_MULTILEVEL,
    SWITCH_ALL,
    SWITCH_TOGGLE_BINARY,
    SWITCH_TOGGLE_MULTILEVEL,
    CHIMNEY_FAN,
    SCENE_ACTIVATION,
    SCENE_ACTUATOR_CONF,
    SCENE_CONTROLLER_CONF,
    ZIP_CLIENT,
    ZIP_ADV_SERVICES,
    SENSOR_BINARY,
    SENSOR_MULTILEVEL,
    METER,
    ZIP_ADV_SERVER,
    ZIP_ADV_CLIENT,
    METER_PULSE,
    METER_TBL_CONFIG,
    METER_TBL_MONITOR,
    METER_TBL_PUSH,
    THERMOSTAT_HEATING,
    THERMOSTAT_MODE,
    THERMOSTAT_OPERATING_STATE,
    THERMOSTAT_SETPOINT,
    THERMOSTAT_FAN_MODE,
    THERMOSTAT_FAN_STATE,
    CLIMATE_CONTROL_SCHEDULE,
    THERMOSTAT_SETBACK,
    TARIF_CONFIG,
    TARIF_TABLE_MONITOR,
    COMMAND_CLASS_DOOR_LOCK_LOGGING,
    SCHEDULE_ENTRY_LOCK,
    ZIP_6LOWPAN,
    BASIC_WINDOW_COVERING,
    MTP_WINDOW_COVERING,
    MULTI_INSTANCE,
    DOOR_LOCK,
    USER_CODE,
    CONFIGURATION,
    ALARM,
    MANUFACTURER_SPECIFIC,
    POWER_LEVEL,
    PROTECTION,
    LOCK,
    NODE_NAMING,
    FIRMWARE_UPDATE_MD,
    GROUPING_NAME,
    REMOTE_ASSOCIATION_ACTIVATE,
    REMOTE_ASSOCIATION,
    BATTERY,
    CLOCK,
    HAIL,
    WAKE_UP,
    ASSOCIATION,
    VERSION,
    INDICATOR,
    PROPRIETARY,
    LANGUAGE,
    TIME,
    TIME_PARAMETERS,
    GEOGRAPHIC_LOCATION,
    COMPOSITE,
    MULTI_INSTANCE_ASSOCIATION,
    MULTI_CMD,
    ENERGY_PRODUCTION,
    MANUFACTURER_PROPRIETARY,
    SCREEN_MD,
    SCREEN_ATTRIBUTES,
    SIMPLE_AV_CONTROL,
    AV_CONTENT_DIRECTORY_MD,
    AV_RENDERER_STATUS,
    AV_CONTENT_SEARCH_MD,
    SECURITY,
    AV_TAGGING_MD,
    IP_CONFIGURATION,
    ASSOCIATION_COMMAND_CONFIGURATION,
    SENSOR_ALARM,
    SILENCE_ALARM,
    SENSOR_CONFIGURATION,
    MARK,
    NON_INTEROPERABLE,
}

impl CommandClass {
    /// The byte that identifies the class on the wire.
    pub open spec fn spec_to_byte(self) -> u8 {
        match self {
            CommandClass::NO_OPERATION => 0x00,
            CommandClass::NODE_INFO => 0x01,
            CommandClass::REQUEST_NODE_INFO => 0x02,
            CommandClass::ASSIGN_IDS => 0x03,
            CommandClass::FIND_NODES_IN_RANGE => 0x04,
            CommandClass::GET_NODES_IN_RANGE => 0x05,
            CommandClass::RANGE_INFO => 0x06,
            CommandClass::CMD_COMPLETE => 0x07,
            CommandClass::TRANSFER_PRESENTATION => 0x08,
            CommandClass::TRANSFER_NODE_INFO => 0x09,
            CommandClass::TRANSFER_RANGE_INFO => 0x0A,
            CommandClass::TRANSFER_END => 0x0B,
            CommandClass::ASSIGN_RETURN_ROUTE => 0x0C,
            CommandClass::NEW_NODE_REGISTERED => 0x0D,
            CommandClass::NEW_RANGE_REGISTERED => 0x0E,
            CommandClass::TRANSFER_NEW_PRIMARY_COMPLETE => 0x0F,
            CommandClass::AUTOMATIC_CONTROLLER_UPDATE_START => 0x10,
            CommandClass::SUC_NODE_ID => 0x11,
            CommandClass::SET_SUC => 0x12,
            CommandClass::SET_SUC_ACK => 0x13,
            CommandClass::ASSIGN_SUC_RETURN_ROUTE => 0x14,
            CommandClass::STATIC_ROUTE_REQUEST => 0x15,
            CommandClass::LOST => 0x16,
            CommandClass::ACCEPT_LOST => 0x17,
            CommandClass::NOP_POWER => 0x18,
            CommandClass::RESERVE_NODE_IDS => 0x19,
            CommandClass::RESERVED_IDS => 0x1A,
            CommandClass::BASIC => 0x20,
            CommandClass::CONTROLLER_REPLICATION => 0x21,
            CommandClass::APPLICATION_STATUS => 0x22,
            CommandClass::ZIP_SERVICES => 0x23,
            CommandClass::ZIP_SERVER => 0x24,
            CommandClass::SWITCH_BINARY => 0x25,
            CommandClass::SWITCH_MULTILEVEL => 0x26,
            CommandClass::SWITCH_ALL => 0x27,
            CommandClass::SWITCH_TOGGLE_BINARY => 0x28,
            CommandClass::SWITCH_TOGGLE_MULTILEVEL => 0x29,
            CommandClass::CHIMNEY_FAN => 0x2A,
            CommandClass::SCENE_ACTIVATION => 0x2B,
            CommandClass::SCENE_ACTUATOR_CONF => 0x2C,
            CommandClass::SCENE_CONTROLLER_CONF => 0x2D,
            CommandClass::ZIP_CLIENT => 0x2E,
            CommandClass::ZIP_ADV_SERVICES => 0x2F,
            CommandClass::SENSOR_BINARY => 0x30,
            CommandClass::SENSOR_MULTILEVEL => 0x31,
            CommandClass::METER => 0x32,
            CommandClass::ZIP_ADV_SERVER => 0x33,
            CommandClass::ZIP_ADV_CLIENT => 0x34,
            CommandClass::METER_PULSE => 0x35,
            CommandClass::METER_TBL_CONFIG => 0x3C,
            CommandClass::METER_TBL_MONITOR => 0x3D,
            CommandClass::METER_TBL_PUSH => 0x3E,
            CommandClass::THERMOSTAT_HEATING => 0x38,
            CommandClass::THERMOSTAT_MODE => 0x40,
            CommandClass::THERMOSTAT_OPERATING_STATE => 0x42,
            CommandClass::THERMOSTAT_SETPOINT => 0x43,
            CommandClass::THERMOSTAT_FAN_MODE => 0x44,
            CommandClass::THERMOSTAT_FAN_STATE => 0x45,
            CommandClass::CLIMATE_CONTROL_SCHEDULE => 0x46,
            CommandClass::THERMOSTAT_SETBACK => 0x47,
            CommandClass::TARIF_CONFIG => 0x4A,
            CommandClass::TARIF_TABLE_MONITOR => 0x4B,
            CommandClass::COMMAND_CLASS_DOOR_LOCK_LOGGING => 0x4C,
            CommandClass::SCHEDULE_ENTRY_LOCK => 0x4E,
            CommandClass::ZIP_6LOWPAN => 0x4F,
            CommandClass::BASIC_WINDOW_COVERING => 0x50,
            CommandClass::MTP_WINDOW_COVERING => 0x51,
            CommandClass::MULTI_INSTANCE => 0x60,
            CommandClass::DOOR_LOCK => 0x62,
            CommandClass::USER_CODE => 0x63,
            CommandClass::CONFIGURATION => 0x70,
            CommandClass::ALARM => 0x71,
            CommandClass::MANUFACTURER_SPECIFIC => 0x72,
            CommandClass::POWER_LEVEL => 0x73,
            CommandClass::PROTECTION => 0x75,
            CommandClass::LOCK => 0x76,
            CommandClass::NODE_NAMING => 0x77,
            CommandClass::FIRMWARE_UPDATE_MD => 0x7A,
            CommandClass::GROUPING_NAME => 0x7B,
            CommandClass::REMOTE_ASSOCIATION_ACTIVATE => 0x7C,
            CommandClass::REMOTE_ASSOCIATION => 0x7D,
            CommandClass::BATTERY => 0x80,
            CommandClass::CLOCK => 0x81,
            CommandClass::HAIL => 0x82,
            CommandClass::WAKE_UP => 0x84,
            CommandClass::ASSOCIATION => 0x85,
            CommandClass::VERSION => 0x86,
            CommandClass::INDICATOR => 0x87,
            CommandClass::PROPRIETARY => 0x88,
            CommandClass::LANGUAGE => 0x89,
            CommandClass::TIME => 0x8A,
            CommandClass::TIME_PARAMETERS => 0x8B,
            CommandClass::GEOGRAPHIC_LOCATION => 0x8C,
            CommandClass::COMPOSITE => 0x8D,
            CommandClass::MULTI_INSTANCE_ASSOCIATION => 0x8E,
            CommandClass::MULTI_CMD => 0x8F,
            CommandClass::ENERGY_PRODUCTION => 0x90,
            CommandClass::MANUFACTURER_PROPRIETARY => 0x91,
            CommandClass::SCREEN_MD => 0x92,
            CommandClass::SCREEN_ATTRIBUTES => 0x93,
            CommandClass::SIMPLE_AV_CONTROL => 0x94,
            CommandClass::AV_CONTENT_DIRECTORY_MD => 0x95,
            CommandClass::AV_RENDERER_STATUS => 0x96,
            CommandClass::AV_CONTENT_SEARCH_MD => 0x97,
            CommandClass::SECURITY => 0x98,
            CommandClass::AV_TAGGING_MD => 0x99,
            CommandClass::IP_CONFIGURATION => 0x9A,
            CommandClass::ASSOCIATION_COMMAND_CONFIGURATION => 0x9B,
            CommandClass::SENSOR_ALARM => 0x9C,
            CommandClass::SILENCE_ALARM => 0x9D,
            CommandClass::SENSOR_CONFIGURATION => 0x9E,
            CommandClass::MARK => 0xEF,
            CommandClass::NON_INTEROPERABLE => 0xF0,
        }
    }

    /// Whether `b` identifies a command class.
    pub open spec fn is_known(b: u8) -> bool {
        exists|c: CommandClass| c.spec_to_byte() == b
    }

    /// The class that `b` identifies, where it identifies one.
    pub open spec fn spec_from_u8(b: u8) -> Option<CommandClass> {
        if Self::is_known(b) {
            Some(choose|c: CommandClass| c.spec_to_byte() == b)
        } else {
            None
        }
    }

    /// The class that `b` resolves to: the class it identifies, and
    /// `NO_OPERATION` where it identifies none.
    pub open spec fn spec_from_byte(b: u8) -> CommandClass {
        match Self::spec_from_u8(b) {
            Some(c) => c,
            None => CommandClass::NO_OPERATION,
        }
    }

    /// No two classes share a byte.
    pub proof fn lemma_to_byte_injective(a: CommandClass, b: CommandClass)
        requires
            a.spec_to_byte() == b.spec_to_byte(),
        ensures
            a == b,
    {
    }

    /// Returns the byte that identifies the class on the wire.
    #[verifier::when_used_as_spec(spec_to_byte)]
    pub fn to_byte(self) -> (b: u8)
        ensures
            b == self.spec_to_byte(),
    {
        match self {
            CommandClass::NO_OPERATION => 0x00,
            CommandClass::NODE_INFO => 0x01,
            CommandClass::REQUEST_NODE_INFO => 0x02,
            CommandClass::ASSIGN_IDS => 0x03,
            CommandClass::FIND_NODES_IN_RANGE => 0x04,
            CommandClass::GET_NODES_IN_RANGE => 0x05,
            CommandClass::RANGE_INFO => 0x06,
            CommandClass::CMD_COMPLETE => 0x07,
            CommandClass::TRANSFER_PRESENTATION => 0x08,
            CommandClass::TRANSFER_NODE_INFO => 0x09,
            CommandClass::TRANSFER_RANGE_INFO => 0x0A,
            CommandClass::TRANSFER_END => 0x0B,
            CommandClass::ASSIGN_RETURN_ROUTE => 0x0C,
            CommandClass::NEW_NODE_REGISTERED => 0x0D,
            CommandClass::NEW_RANGE_REGISTERED => 0x0E,
            CommandClass::TRANSFER_NEW_PRIMARY_COMPLETE => 0x0F,
            CommandClass::AUTOMATIC_CONTROLLER_UPDATE_START => 0x10,
            CommandClass::SUC_NODE_ID => 0x11,
            CommandClass::SET_SUC => 0x12,
            CommandClass::SET_SUC_ACK => 0x13,
            CommandClass::ASSIGN_SUC_RETURN_ROUTE => 0x14,
            CommandClass::STATIC_ROUTE_REQUEST => 0x15,
            CommandClass::LOST => 0x16,
            CommandClass::ACCEPT_LOST => 0x17,
            CommandClass::NOP_POWER => 0x18,
            CommandClass::RESERVE_NODE_IDS => 0x19,
            CommandClass::RESERVED_IDS => 0x1A,
            CommandClass::BASIC => 0x20,
            CommandClass::CONTROLLER_REPLICATION => 0x21,
            CommandClass::APPLICATION_STATUS => 0x22,
            CommandClass::ZIP_SERVICES => 0x23,
            CommandClass::ZIP_SERVER => 0x24,
            CommandClass::SWITCH_BINARY => 0x25,
            CommandClass::SWITCH_MULTILEVEL => 0x26,
            CommandClass::SWITCH_ALL => 0x27,
            CommandClass::SWITCH_TOGGLE_BINARY => 0x28,
            CommandClass::SWITCH_TOGGLE_MULTILEVEL => 0x29,
            CommandClass::CHIMNEY_FAN => 0x2A,
            CommandClass::SCENE_ACTIVATION => 0x2B,
            CommandClass::SCENE_ACTUATOR_CONF => 0x2C,
            CommandClass::SCENE_CONTROLLER_CONF => 0x2D,
            CommandClass::ZIP_CLIENT => 0x2E,
            CommandClass::ZIP_ADV_SERVICES => 0x2F,
            CommandClass::SENSOR_BINARY => 0x30,
            CommandClass::SENSOR_MULTILEVEL => 0x31,
            CommandClass::METER => 0x32,
            CommandClass::ZIP_ADV_SERVER => 0x33,
            CommandClass::ZIP_ADV_CLIENT => 0x34,
            CommandClass::METER_PULSE => 0x35,
            CommandClass::METER_TBL_CONFIG => 0x3C,
            CommandClass::METER_TBL_MONITOR => 0x3D,
            CommandClass::METER_TBL_PUSH => 0x3E,
            CommandClass::THERMOSTAT_HEATING => 0x38,
            CommandClass::THERMOSTAT_MODE => 0x40,
            CommandClass::THERMOSTAT_OPERATING_STATE => 0x42,
            CommandClass::THERMOSTAT_SETPOINT => 0x43,
            CommandClass::THERMOSTAT_FAN_MODE => 0x44,
            CommandClass::THERMOSTAT_FAN_STATE => 0x45,
            CommandClass::CLIMATE_CONTROL_SCHEDULE => 0x46,
            CommandClass::THERMOSTAT_SETBACK => 0x47,
            CommandClass::TARIF_CONFIG => 0x4A,
            CommandClass::TARIF_TABLE_MONITOR => 0x4B,
            CommandClass::COMMAND_CLASS_DOOR_LOCK_LOGGING => 0x4C,
            CommandClass::SCHEDULE_ENTRY_LOCK => 0x4E,
            CommandClass::ZIP_6LOWPAN => 0x4F,
            CommandClass::BASIC_WINDOW_COVERING => 0x50,
            CommandClass::MTP_WINDOW_COVERING => 0x51,
            CommandClass::MULTI_INSTANCE => 0x60,
            CommandClass::DOOR_LOCK => 0x62,
            CommandClass::USER_CODE => 0x63,
            CommandClass::CONFIGURATION => 0x70,
            CommandClass::ALARM => 0x71,
            CommandClass::MANUFACTURER_SPECIFIC => 0x72,
            CommandClass::POWER_LEVEL => 0x73,
            CommandClass::PROTECTION => 0x75,
            CommandClass::LOCK => 0x76,
            CommandClass::NODE_NAMING => 0x77,
            CommandClass::FIRMWARE_UPDATE_MD => 0x7A,
            CommandClass::GROUPING_NAME => 0x7B,
            CommandClass::REMOTE_ASSOCIATION_ACTIVATE => 0x7C,
            CommandClass::REMOTE_ASSOCIATION => 0x7D,
            CommandClass::BATTERY => 0x80,
            CommandClass::CLOCK => 0x81,
            CommandClass::HAIL => 0x82,
            CommandClass::WAKE_UP => 0x84,
            CommandClass::ASSOCIATION => 0x85,
            CommandClass::VERSION => 0x86,
            CommandClass::INDICATOR => 0x87,
            CommandClass::PROPRIETARY => 0x88,
            CommandClass::LANGUAGE => 0x89,
            CommandClass::TIME => 0x8A,
            CommandClass::TIME_PARAMETERS => 0x8B,
            CommandClass::GEOGRAPHIC_LOCATION => 0x8C,
            CommandClass::COMPOSITE => 0x8D,
            CommandClass::MULTI_INSTANCE_ASSOCIATION => 0x8E,
            CommandClass::MULTI_CMD => 0x8F,
            CommandClass::ENERGY_PRODUCTION => 0x90,
            CommandClass::MANUFACTURER_PROPRIETARY => 0x91,
            CommandClass::SCREEN_MD => 0x92,
            CommandClass::SCREEN_ATTRIBUTES => 0x93,
            CommandClass::SIMPLE_AV_CONTROL => 0x94,
            CommandClass::AV_CONTENT_DIRECTORY_MD => 0x95,
            CommandClass::AV_RENDERER_STATUS => 0x96,
            CommandClass::AV_CONTENT_SEARCH_MD => 0x97,
            CommandClass::SECURITY => 0x98,
            CommandClass::AV_TAGGING_MD => 0x99,
            CommandClass::IP_CONFIGURATION => 0x9A,
            CommandClass::ASSOCIATION_COMMAND_CONFIGURATION => 0x9B,
            CommandClass::SENSOR_ALARM => 0x9C,
            CommandClass::SILENCE_ALARM => 0x9D,
            CommandClass::SENSOR_CONFIGURATION => 0x9E,
            CommandClass::MARK => 0xEF,
            CommandClass::NON_INTEROPERABLE => 0xF0,
        }
    }

    /// Looks up the class that `b` identifies. Returns `None` where `b`
    /// identifies no class.
    #[verifier::when_used_as_spec(spec_from_u8)]
    pub fn from_u8(b: u8) -> (found: Option<CommandClass>)
        ensures
            found == Self::spec_from_u8(b),
            found matches Some(c) ==> c.spec_to_byte() == b,
            found is None <==> !Self::is_known(b),
    {
        let found = match b {
            0x00 => Some(CommandClass::NO_OPERATION),
            0x01 => Some(CommandClass::NODE_INFO),
            0x02 => Some(CommandClass::REQUEST_NODE_INFO),
            0x03 => Some(CommandClass::ASSIGN_IDS),
            0x04 => Some(CommandClass::FIND_NODES_IN_RANGE),
            0x05 => Some(CommandClass::GET_NODES_IN_RANGE),
            0x06 => Some(CommandClass::RANGE_INFO),
            0x07 => Some(CommandClass::CMD_COMPLETE),
            0x08 => Some(CommandClass::TRANSFER_PRESENTATION),
            0x09 => Some(CommandClass::TRANSFER_NODE_INFO),
            0x0A => Some(CommandClass::TRANSFER_RANGE_INFO),
            0x0B => Some(CommandClass::TRANSFER_END),
            0x0C => Some(CommandClass::ASSIGN_RETURN_ROUTE),
            0x0D => Some(CommandClass::NEW_NODE_REGISTERED),
            0x0E => Some(CommandClass::NEW_RANGE_REGISTERED),
            0x0F => Some(CommandClass::TRANSFER_NEW_PRIMARY_COMPLETE),
            0x10 => Some(CommandClass::AUTOMATIC_CONTROLLER_UPDATE_START),
            0x11 => Some(CommandClass::SUC_NODE_ID),
            0x12 => Some(CommandClass::SET_SUC),
            0x13 => Some(CommandClass::SET_SUC_ACK),
            0x14 => Some(CommandClass::ASSIGN_SUC_RETURN_ROUTE),
            0x15 => Some(CommandClass::STATIC_ROUTE_REQUEST),
            0x16 => Some(CommandClass::LOST),
            0x17 => Some(CommandClass::ACCEPT_LOST),
            0x18 => Some(CommandClass::NOP_POWER),
            0x19 => Some(CommandClass::RESERVE_NODE_IDS),
            0x1A => Some(CommandClass::RESERVED_IDS),
            0x20 => Some(CommandClass::BASIC),
            0x21 => Some(CommandClass::CONTROLLER_REPLICATION),
            0x22 => Some(CommandClass::APPLICATION_STATUS),
            0x23 => Some(CommandClass::ZIP_SERVICES),
            0x24 => Some(CommandClass::ZIP_SERVER),
            0x25 => Some(CommandClass::SWITCH_BINARY),
            0x26 => Some(CommandClass::SWITCH_MULTILEVEL),
            0x27 => Some(CommandClass::SWITCH_ALL),
            0x28 => Some(CommandClass::SWITCH_TOGGLE_BINARY),
            0x29 => Some(CommandClass::SWITCH_TOGGLE_MULTILEVEL),
            0x2A => Some(CommandClass::CHIMNEY_FAN),
            0x2B => Some(CommandClass::SCENE_ACTIVATION),
            0x2C => Some(CommandClass::SCENE_ACTUATOR_CONF),
            0x2D => Some(CommandClass::SCENE_CONTROLLER_CONF),
            0x2E => Some(CommandClass::ZIP_CLIENT),
            0x2F => Some(CommandClass::ZIP_ADV_SERVICES),
            0x30 => Some(CommandClass::SENSOR_BINARY),
            0x31 => Some(CommandClass::SENSOR_MULTILEVEL),
            0x32 => Some(CommandClass::METER),
            0x33 => Some(CommandClass::ZIP_ADV_SERVER),
            0x34 => Some(CommandClass::ZIP_ADV_CLIENT),
            0x35 => Some(CommandClass::METER_PULSE),
            0x3C => Some(CommandClass::METER_TBL_CONFIG),
            0x3D => Some(CommandClass::METER_TBL_MONITOR),
            0x3E => Some(CommandClass::METER_TBL_PUSH),
            0x38 => Some(CommandClass::THERMOSTAT_HEATING),
            0x40 => Some(CommandClass::THERMOSTAT_MODE),
            0x42 => Some(CommandClass::THERMOSTAT_OPERATING_STATE),
            0x43 => Some(CommandClass::THERMOSTAT_SETPOINT),
            0x44 => Some(CommandClass::THERMOSTAT_FAN_MODE),
            0x45 => Some(CommandClass::THERMOSTAT_FAN_STATE),
            0x46 => Some(CommandClass::CLIMATE_CONTROL_SCHEDULE),
            0x47 => Some(CommandClass::THERMOSTAT_SETBACK),
            0x4A => Some(CommandClass::TARIF_CONFIG),
            0x4B => Some(CommandClass::TARIF_TABLE_MONITOR),
            0x4C => Some(CommandClass::COMMAND_CLASS_DOOR_LOCK_LOGGING),
            0x4E => Some(CommandClass::SCHEDULE_ENTRY_LOCK),
            0x4F => Some(CommandClass::ZIP_6LOWPAN),
            0x50 => Some(CommandClass::BASIC_WINDOW_COVERING),
            0x51 => Some(CommandClass::MTP_WINDOW_COVERING),
            0x60 => Some(CommandClass::MULTI_INSTANCE),
            0x62 => Some(CommandClass::DOOR_LOCK),
            0x63 => Some(CommandClass::USER_CODE),
            0x70 => Some(CommandClass::CONFIGURATION),
            0x71 => Some(CommandClass::ALARM),
            0x72 => Some(CommandClass::MANUFACTURER_SPECIFIC),
            0x73 => Some(CommandClass::POWER_LEVEL),
            0x75 => Some(CommandClass::PROTECTION),
            0x76 => Some(CommandClass::LOCK),
            0x77 => Some(CommandClass::NODE_NAMING),
            0x7A => Some(CommandClass::FIRMWARE_UPDATE_MD),
            0x7B => Some(CommandClass::GROUPING_NAME),
            0x7C => Some(CommandClass::REMOTE_ASSOCIATION_ACTIVATE),
            0x7D => Some(CommandClass::REMOTE_ASSOCIATION),
            0x80 => Some(CommandClass::BATTERY),
            0x81 => Some(CommandClass::CLOCK),
            0x82 => Some(CommandClass::HAIL),
            0x84 => Some(CommandClass::WAKE_UP),
            0x85 => Some(CommandClass::ASSOCIATION),
            0x86 => Some(CommandClass::VERSION),
            0x87 => Some(CommandClass::INDICATOR),
            0x88 => Some(CommandClass::PROPRIETARY),
            0x89 => Some(CommandClass::LANGUAGE),
            0x8A => Some(CommandClass::TIME),
            0x8B => Some(CommandClass::TIME_PARAMETERS),
            0x8C => Some(CommandClass::GEOGRAPHIC_LOCATION),
            0x8D => Some(CommandClass::COMPOSITE),
            0x8E => Some(CommandClass::MULTI_INSTANCE_ASSOCIATION),
            0x8F => Some(CommandClass::MULTI_CMD),
            0x90 => Some(CommandClass::ENERGY_PRODUCTION),
            0x91 => Some(CommandClass::MANUFACTURER_PROPRIETARY),
            0x92 => Some(CommandClass::SCREEN_MD),
            0x93 => Some(CommandClass::SCREEN_ATTRIBUTES),
            0x94 => Some(CommandClass::SIMPLE_AV_CONTROL),
            0x95 => Some(CommandClass::AV_CONTENT_DIRECTORY_MD),
            0x96 => Some(CommandClass::AV_RENDERER_STATUS),
            0x97 => Some(CommandClass::AV_CONTENT_SEARCH_MD),
            0x98 => Some(CommandClass::SECURITY),
            0x99 => Some(CommandClass::AV_TAGGING_MD),
            0x9A => Some(CommandClass::IP_CONFIGURATION),
            0x9B => Some(CommandClass::ASSOCIATION_COMMAND_CONFIGURATION),
            0x9C => Some(CommandClass::SENSOR_ALARM),
            0x9D => Some(CommandClass::SILENCE_ALARM),
            0x9E => Some(CommandClass::SENSOR_CONFIGURATION),
            0xEF => Some(CommandClass::MARK),
            0xF0 => Some(CommandClass::NON_INTEROPERABLE),
            _ => None,
        };
        proof {
            match found {
                Some(c) => {
                    assert(c.spec_to_byte() == b);
                    Self::lemma_to_byte_injective(c, choose|x: CommandClass| x.spec_to_byte() == b);
                },
                None => {
                    assert forall|c: CommandClass| c.spec_to_byte() != b by {}
                },
            }
        }
        found
    }

    /// Resolves `b` to a command class. This never fails: a byte that
    /// identifies no class resolves to `NO_OPERATION`, so a caller that needs
    /// strict validation compares the result with the class it expects, or
    /// uses [`CommandClass::from_u8`].
    #[verifier::when_used_as_spec(spec_from_byte)]
    pub fn from_byte(b: u8) -> (class: CommandClass)
        ensures
            class == Self::spec_from_byte(b),
            Self::is_known(b) ==> class.spec_to_byte() == b,
            !Self::is_known(b) ==> class == CommandClass::NO_OPERATION,
    {
        match Self::from_u8(b) {
            Some(c) => c,
            None => CommandClass::NO_OPERATION,
        }
    }

    /// Resolving the byte of a class gives the class back: `from_byte` and
    /// `from_u8` invert `to_byte`.
    pub proof fn lemma_from_byte_to_byte(c: CommandClass)
        ensures
            Self::is_known(c.spec_to_byte()),
            Self::spec_from_u8(c.spec_to_byte()) == Some(c),
            Self::spec_from_byte(c.spec_to_byte()) == c,
    {
        let b = c.spec_to_byte();
        Self::lemma_to_byte_injective(c, choose|x: CommandClass| x.spec_to_byte() == b);
    }

    /// A byte that identifies no class resolves to `NO_OPERATION`.
    pub proof fn lemma_from_byte_unknown(b: u8)
        requires
            forall|c: CommandClass| c.spec_to_byte() != b,
        ensures
            !Self::is_known(b),
            Self::spec_from_u8(b) is None,
            Self::spec_from_byte(b) == CommandClass::NO_OPERATION,
    {
    }

    /// Whatever the byte, resolving it and taking the byte of the result
    /// gives the byte back exactly where it identifies a class, and zero,
    /// the byte of `NO_OPERATION`, where it identifies none.
    pub proof fn lemma_to_byte_from_byte(b: u8)
        ensures
            Self::spec_from_byte(b).spec_to_byte() == (if Self::is_known(b) { b } else { 0 }),
    {
    }
}

} // verus!
