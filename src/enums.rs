//! Codes that packets carry: why a login was refused, and which status a value belongs to.
use vstd::prelude::*;

verus! {

/// Why the login server refused a login.
#[allow(non_camel_case_types)]
#[derive(Debug, Clone, Copy, PartialEq, Eq, Structural)]
pub enum AuthResult {
    ServerClosed,
    AlreadyLoggedWithId,
    AlreadyOnline,
}

impl AuthResult {
    /// The wire code.
    pub open spec fn spec_code(self) -> u8 {
        match self {
            AuthResult::ServerClosed => 0x0001,
            AuthResult::AlreadyLoggedWithId => 0x0002,
            AuthResult::AlreadyOnline => 0x0008,
        }
    }

    pub fn code(self) -> (r: u8)
        ensures
            r == self.spec_code(),
    {
        match self {
            AuthResult::ServerClosed => 0x0001,
            AuthResult::AlreadyLoggedWithId => 0x0002,
            AuthResult::AlreadyOnline => 0x0008,
        }
    }

    /// The variant with wire code `code`, if there is one.
    pub open spec fn spec_from_code(code: u8) -> Option<AuthResult> {
        if code == 0x0001 {
            Some(AuthResult::ServerClosed)
        } else if code == 0x0002 {
            Some(AuthResult::AlreadyLoggedWithId)
        } else if code == 0x0008 {
            Some(AuthResult::AlreadyOnline)
        } else {
            None
        }
    }

    /// The variant with wire code `code`, if there is one.
    pub fn from_code(code: u8) -> (r: Option<AuthResult>)
        ensures
            r == Self::spec_from_code(code),
            match r {
                Some(e) => e.spec_code() == code,
                None => forall|e: AuthResult| #[trigger] e.spec_code() != code,
            },
    {
        match code {
            0x0001 => Some(AuthResult::ServerClosed),
            0x0002 => Some(AuthResult::AlreadyLoggedWithId),
            0x0008 => Some(AuthResult::AlreadyOnline),
            _ => None,
        }
    }
}

/// A character status that a status packet reports.
#[allow(non_camel_case_types)]
#[derive(Debug, Clone, Copy, PartialEq, Eq, Structural)]
pub enum StatusPoint {
    SpSpeed,
    SpBaseexp,
    SpJobexp,
    SpKarma,
    SpManner,
    SpHp,
    SpMaxhp,
    SpSp,
    SpMaxsp,
    SpStatuspoint,
    Sp0a,
    SpBaselevel,
    SpSkillpoint,
    SpStr,
    SpAgi,
    SpVit,
    SpInt,
    SpDex,
    SpLuk,
    SpClass,
    SpZeny,
    SpSex,
    SpNextbaseexp,
    SpNextjobexp,
    SpWeight,
    SpMaxweight,
    Sp1a,
    Sp1b,
    Sp1c,
    Sp1d,
    Sp1e,
    Sp1f,
    SpUstr,
    SpUagi,
    SpUvit,
    SpUint,
    SpUdex,
    SpUluk,
    Sp26,
    Sp27,
    Sp28,
    SpAtk1,
    SpAtk2,
    SpMatk1,
    SpMatk2,
    SpDef1,
    SpDef2,
    SpMdef1,
    SpMdef2,
    SpHit,
    SpFlee1,
    SpFlee2,
    SpCritical,
    SpAspd,
    Sp36,
    SpJoblevel,
    SpUpper,
    SpPartner,
    SpCart,
    SpFame,
    SpUnbreakable,
    SpCartinfo,
    SpPow,
    SpSta,
    SpWis,
    SpSpl,
    SpCon,
    SpCrt,
    SpPatk,
    SpSmatk,
    SpRes,
    SpMres,
    SpHplus,
    SpCrate,
    SpTraitpoint,
    SpAp,
    SpMaxap,
    SpUpow,
    SpUsta,
    SpUwis,
    SpUspl,
    SpUcon,
    SpUcrt,
}

impl StatusPoint {
    /// The wire code.
    pub open spec fn spec_code(self) -> u16 {
        match self {
            StatusPoint::SpSpeed => 0x0000,
            StatusPoint::SpBaseexp => 0x0001,
            StatusPoint::SpJobexp => 0x0002,
            StatusPoint::SpKarma => 0x0003,
            StatusPoint::SpManner => 0x0004,
            StatusPoint::SpHp => 0x0005,
            StatusPoint::SpMaxhp => 0x0006,
            StatusPoint::SpSp => 0x0007,
            StatusPoint::SpMaxsp => 0x0008,
            StatusPoint::SpStatuspoint => 0x0009,
            StatusPoint::Sp0a => 0x000a,
            StatusPoint::SpBaselevel => 0x000b,
            StatusPoint::SpSkillpoint => 0x000c,
            StatusPoint::SpStr => 0x000d,
            StatusPoint::SpAgi => 0x000e,
            StatusPoint::SpVit => 0x000f,
            StatusPoint::SpInt => 0x0010,
            StatusPoint::SpDex => 0x0011,
            StatusPoint::SpLuk => 0x0012,
            StatusPoint::SpClass => 0x0013,
            StatusPoint::SpZeny => 0x0014,
            StatusPoint::SpSex => 0x0015,
            StatusPoint::SpNextbaseexp => 0x0016,
            StatusPoint::SpNextjobexp => 0x0017,
            StatusPoint::SpWeight => 0x0018,
            StatusPoint::SpMaxweight => 0x0019,
            StatusPoint::Sp1a => 0x001a,
            StatusPoint::Sp1b => 0x001b,
            StatusPoint::Sp1c => 0x001c,
            StatusPoint::Sp1d => 0x001d,
            StatusPoint::Sp1e => 0x001e,
            StatusPoint::Sp1f => 0x001f,
            StatusPoint::SpUstr => 0x0020,
            StatusPoint::SpUagi => 0x0021,
            StatusPoint::SpUvit => 0x0022,
            StatusPoint::SpUint => 0x0023,
            StatusPoint::SpUdex => 0x0024,
            StatusPoint::SpUluk => 0x0025,
            StatusPoint::Sp26 => 0x0026,
            StatusPoint::Sp27 => 0x0027,
            StatusPoint::Sp28 => 0x0028,
            StatusPoint::SpAtk1 => 0x0029,
            StatusPoint::SpAtk2 => 0x002a,
            StatusPoint::SpMatk1 => 0x002b,
            StatusPoint::SpMatk2 => 0x002c,
            StatusPoint::SpDef1 => 0x002d,
            StatusPoint::SpDef2 => 0x002e,
            StatusPoint::SpMdef1 => 0x002f,
            StatusPoint::SpMdef2 => 0x0030,
            StatusPoint::SpHit => 0x0031,
            StatusPoint::SpFlee1 => 0x0032,
            StatusPoint::SpFlee2 => 0x0033,
            StatusPoint::SpCritical => 0x0034,
            StatusPoint::SpAspd => 0x0035,
            StatusPoint::Sp36 => 0x0036,
            StatusPoint::SpJoblevel => 0x0037,
            StatusPoint::SpUpper => 0x0038,
            StatusPoint::SpPartner => 0x0039,
            StatusPoint::SpCart => 0x003a,
            StatusPoint::SpFame => 0x003b,
            StatusPoint::SpUnbreakable => 0x003c,
            StatusPoint::SpCartinfo => 0x0063,
            StatusPoint::SpPow => 0x00db,
            StatusPoint::SpSta => 0x00dc,
            StatusPoint::SpWis => 0x00dd,
            StatusPoint::SpSpl => 0x00de,
            StatusPoint::SpCon => 0x00df,
            StatusPoint::SpCrt => 0x00e0,
            StatusPoint::SpPatk => 0x00e1,
            StatusPoint::SpSmatk => 0x00e2,
            StatusPoint::SpRes => 0x00e3,
            StatusPoint::SpMres => 0x00e4,
            StatusPoint::SpHplus => 0x00e5,
            StatusPoint::SpCrate => 0x00e6,
            StatusPoint::SpTraitpoint => 0x00e7,
            StatusPoint::SpAp => 0x00e8,
            StatusPoint::SpMaxap => 0x00e9,
            StatusPoint::SpUpow => 0x00f7,
            StatusPoint::SpUsta => 0x00f8,
            StatusPoint::SpUwis => 0x00f9,
            StatusPoint::SpUspl => 0x00fa,
            StatusPoint::SpUcon => 0x00fb,
            StatusPoint::SpUcrt => 0x00fc,
        }
    }

    pub fn code(self) -> (r: u16)
        ensures
            r == self.spec_code(),
    {
        match self {
            StatusPoint::SpSpeed => 0x0000,
            StatusPoint::SpBaseexp => 0x0001,
            StatusPoint::SpJobexp => 0x0002,
            StatusPoint::SpKarma => 0x0003,
            StatusPoint::SpManner => 0x0004,
            StatusPoint::SpHp => 0x0005,
            StatusPoint::SpMaxhp => 0x0006,
            StatusPoint::SpSp => 0x0007,
            StatusPoint::SpMaxsp => 0x0008,
            StatusPoint::SpStatuspoint => 0x0009,
            StatusPoint::Sp0a => 0x000a,
            StatusPoint::SpBaselevel => 0x000b,
            StatusPoint::SpSkillpoint => 0x000c,
            StatusPoint::SpStr => 0x000d,
            StatusPoint::SpAgi => 0x000e,
            StatusPoint::SpVit => 0x000f,
            StatusPoint::SpInt => 0x0010,
            StatusPoint::SpDex => 0x0011,
            StatusPoint::SpLuk => 0x0012,
            StatusPoint::SpClass => 0x0013,
            StatusPoint::SpZeny => 0x0014,
            StatusPoint::SpSex => 0x0015,
            StatusPoint::SpNextbaseexp => 0x0016,
            StatusPoint::SpNextjobexp => 0x0017,
            StatusPoint::SpWeight => 0x0018,
            StatusPoint::SpMaxweight => 0x0019,
            StatusPoint::Sp1a => 0x001a,
            StatusPoint::Sp1b => 0x001b,
            StatusPoint::Sp1c => 0x001c,
            StatusPoint::Sp1d => 0x001d,
            StatusPoint::Sp1e => 0x001e,
            StatusPoint::Sp1f => 0x001f,
            StatusPoint::SpUstr => 0x0020,
            StatusPoint::SpUagi => 0x0021,
            StatusPoint::SpUvit => 0x0022,
            StatusPoint::SpUint => 0x0023,
            StatusPoint::SpUdex => 0x0024,
            StatusPoint::SpUluk => 0x0025,
            StatusPoint::Sp26 => 0x0026,
            StatusPoint::Sp27 => 0x0027,
            StatusPoint::Sp28 => 0x0028,
            StatusPoint::SpAtk1 => 0x0029,
            StatusPoint::SpAtk2 => 0x002a,
            StatusPoint::SpMatk1 => 0x002b,
            StatusPoint::SpMatk2 => 0x002c,
            StatusPoint::SpDef1 => 0x002d,
            StatusPoint::SpDef2 => 0x002e,
            StatusPoint::SpMdef1 => 0x002f,
            StatusPoint::SpMdef2 => 0x0030,
            StatusPoint::SpHit => 0x0031,
            StatusPoint::SpFlee1 => 0x0032,
            StatusPoint::SpFlee2 => 0x0033,
            StatusPoint::SpCritical => 0x0034,
            StatusPoint::SpAspd => 0x0035,
            StatusPoint::Sp36 => 0x0036,
            StatusPoint::SpJoblevel => 0x0037,
            StatusPoint::SpUpper => 0x0038,
            StatusPoint::SpPartner => 0x0039,
            StatusPoint::SpCart => 0x003a,
            StatusPoint::SpFame => 0x003b,
            StatusPoint::SpUnbreakable => 0x003c,
            StatusPoint::SpCartinfo => 0x0063,
            StatusPoint::SpPow => 0x00db,
            StatusPoint::SpSta => 0x00dc,
            StatusPoint::SpWis => 0x00dd,
            StatusPoint::SpSpl => 0x00de,
            StatusPoint::SpCon => 0x00df,
            StatusPoint::SpCrt => 0x00e0,
            StatusPoint::SpPatk => 0x00e1,
            StatusPoint::SpSmatk => 0x00e2,
            StatusPoint::SpRes => 0x00e3,
            StatusPoint::SpMres => 0x00e4,
            StatusPoint::SpHplus => 0x00e5,
            StatusPoint::SpCrate => 0x00e6,
            StatusPoint::SpTraitpoint => 0x00e7,
            StatusPoint::SpAp => 0x00e8,
            StatusPoint::SpMaxap => 0x00e9,
            StatusPoint::SpUpow => 0x00f7,
            StatusPoint::SpUsta => 0x00f8,
            StatusPoint::SpUwis => 0x00f9,
            StatusPoint::SpUspl => 0x00fa,
            StatusPoint::SpUcon => 0x00fb,
            StatusPoint::SpUcrt => 0x00fc,
        }
    }

    /// The variant with wire code `code`, if there is one.
    pub open spec fn spec_from_code(code: u16) -> Option<StatusPoint> {
        if code == 0x0000 {
            Some(StatusPoint::SpSpeed)
        } else if code == 0x0001 {
            Some(StatusPoint::SpBaseexp)
        } else if code == 0x0002 {
            Some(StatusPoint::SpJobexp)
        } else if code == 0x0003 {
            Some(StatusPoint::SpKarma)
        } else if code == 0x0004 {
            Some(StatusPoint::SpManner)
        } else if code == 0x0005 {
            Some(StatusPoint::SpHp)
        } else if code == 0x0006 {
            Some(StatusPoint::SpMaxhp)
        } else if code == 0x0007 {
            Some(StatusPoint::SpSp)
        } else if code == 0x0008 {
            Some(StatusPoint::SpMaxsp)
        } else if code == 0x0009 {
            Some(StatusPoint::SpStatuspoint)
        } else if code == 0x000a {
            Some(StatusPoint::Sp0a)
        } else if code == 0x000b {
            Some(StatusPoint::SpBaselevel)
        } else if code == 0x000c {
            Some(StatusPoint::SpSkillpoint)
        } else if code == 0x000d {
            Some(StatusPoint::SpStr)
        } else if code == 0x000e {
            Some(StatusPoint::SpAgi)
        } else if code == 0x000f {
            Some(StatusPoint::SpVit)
        } else if code == 0x0010 {
            Some(StatusPoint::SpInt)
        } else if code == 0x0011 {
            Some(StatusPoint::SpDex)
        } else if code == 0x0012 {
            Some(StatusPoint::SpLuk)
        } else if code == 0x0013 {
            Some(StatusPoint::SpClass)
        } else if code == 0x0014 {
            Some(StatusPoint::SpZeny)
        } else if code == 0x0015 {
            Some(StatusPoint::SpSex)
        } else if code == 0x0016 {
            Some(StatusPoint::SpNextbaseexp)
        } else if code == 0x0017 {
            Some(StatusPoint::SpNextjobexp)
        } else if code == 0x0018 {
            Some(StatusPoint::SpWeight)
        } else if code == 0x0019 {
            Some(StatusPoint::SpMaxweight)
        } else if code == 0x001a {
            Some(StatusPoint::Sp1a)
        } else if code == 0x001b {
            Some(StatusPoint::Sp1b)
        } else if code == 0x001c {
            Some(StatusPoint::Sp1c)
        } else if code == 0x001d {
            Some(StatusPoint::Sp1d)
        } else if code == 0x001e {
            Some(StatusPoint::Sp1e)
        } else if code == 0x001f {
            Some(StatusPoint::Sp1f)
        } else if code == 0x0020 {
            Some(StatusPoint::SpUstr)
        } else if code == 0x0021 {
            Some(StatusPoint::SpUagi)
        } else if code == 0x0022 {
            Some(StatusPoint::SpUvit)
        } else if code == 0x0023 {
            Some(StatusPoint::SpUint)
        } else if code == 0x0024 {
            Some(StatusPoint::SpUdex)
        } else if code == 0x0025 {
            Some(StatusPoint::SpUluk)
        } else if code == 0x0026 {
            Some(StatusPoint::Sp26)
        } else if code == 0x0027 {
            Some(StatusPoint::Sp27)
        } else if code == 0x0028 {
            Some(StatusPoint::Sp28)
        } else if code == 0x0029 {
            Some(StatusPoint::SpAtk1)
        } else if code == 0x002a {
            Some(StatusPoint::SpAtk2)
        } else if code == 0x002b {
            Some(StatusPoint::SpMatk1)
        } else if code == 0x002c {
            Some(StatusPoint::SpMatk2)
        } else if code == 0x002d {
            Some(StatusPoint::SpDef1)
        } else if code == 0x002e {
            Some(StatusPoint::SpDef2)
        } else if code == 0x002f {
            Some(StatusPoint::SpMdef1)
        } else if code == 0x0030 {
            Some(StatusPoint::SpMdef2)
        } else if code == 0x0031 {
            Some(StatusPoint::SpHit)
        } else if code == 0x0032 {
            Some(StatusPoint::SpFlee1)
        } else if code == 0x0033 {
            Some(StatusPoint::SpFlee2)
        } else if code == 0x0034 {
            Some(StatusPoint::SpCritical)
        } else if code == 0x0035 {
            Some(StatusPoint::SpAspd)
        } else if code == 0x0036 {
            Some(StatusPoint::Sp36)
        } else if code == 0x0037 {
            Some(StatusPoint::SpJoblevel)
        } else if code == 0x0038 {
            Some(StatusPoint::SpUpper)
        } else if code == 0x0039 {
            Some(StatusPoint::SpPartner)
        } else if code == 0x003a {
            Some(StatusPoint::SpCart)
        } else if code == 0x003b {
            Some(StatusPoint::SpFame)
        } else if code == 0x003c {
            Some(StatusPoint::SpUnbreakable)
        } else if code == 0x0063 {
            Some(StatusPoint::SpCartinfo)
        } else if code == 0x00db {
            Some(StatusPoint::SpPow)
        } else if code == 0x00dc {
            Some(StatusPoint::SpSta)
        } else if code == 0x00dd {
            Some(StatusPoint::SpWis)
        } else if code == 0x00de {
            Some(StatusPoint::SpSpl)
        } else if code == 0x00df {
            Some(StatusPoint::SpCon)
        } else if code == 0x00e0 {
            Some(StatusPoint::SpCrt)
        } else if code == 0x00e1 {
            Some(StatusPoint::SpPatk)
        } else if code == 0x00e2 {
            Some(StatusPoint::SpSmatk)
        } else if code == 0x00e3 {
            Some(StatusPoint::SpRes)
        } else if code == 0x00e4 {
            Some(StatusPoint::SpMres)
        } else if code == 0x00e5 {
            Some(StatusPoint::SpHplus)
        } else if code == 0x00e6 {
            Some(StatusPoint::SpCrate)
        } else if code == 0x00e7 {
            Some(StatusPoint::SpTraitpoint)
        } else if code == 0x00e8 {
            Some(StatusPoint::SpAp)
        } else if code == 0x00e9 {
            Some(StatusPoint::SpMaxap)
        } else if code == 0x00f7 {
            Some(StatusPoint::SpUpow)
        } else if code == 0x00f8 {
            Some(StatusPoint::SpUsta)
        } else if code == 0x00f9 {
            Some(StatusPoint::SpUwis)
        } else if code == 0x00fa {
            Some(StatusPoint::SpUspl)
        } else if code == 0x00fb {
            Some(StatusPoint::SpUcon)
        } else if code == 0x00fc {
            Some(StatusPoint::SpUcrt)
        } else {
            None
        }
    }

    /// The variant with wire code `code`, if there is one.
    pub fn from_code(code: u16) -> (r: Option<StatusPoint>)
        ensures
            r == Self::spec_from_code(code),
            match r {
                Some(e) => e.spec_code() == code,
                None => forall|e: StatusPoint| #[trigger] e.spec_code() != code,
            },
    {
        match code {
            0x0000 => Some(StatusPoint::SpSpeed),
            0x0001 => Some(StatusPoint::SpBaseexp),
            0x0002 => Some(StatusPoint::SpJobexp),
            0x0003 => Some(StatusPoint::SpKarma),
            0x0004 => Some(StatusPoint::SpManner),
            0x0005 => Some(StatusPoint::SpHp),
            0x0006 => Some(StatusPoint::SpMaxhp),
            0x0007 => Some(StatusPoint::SpSp),
            0x0008 => Some(StatusPoint::SpMaxsp),
            0x0009 => Some(StatusPoint::SpStatuspoint),
            0x000a => Some(StatusPoint::Sp0a),
            0x000b => Some(StatusPoint::SpBaselevel),
            0x000c => Some(StatusPoint::SpSkillpoint),
            0x000d => Some(StatusPoint::SpStr),
            0x000e => Some(StatusPoint::SpAgi),
            0x000f => Some(StatusPoint::SpVit),
            0x0010 => Some(StatusPoint::SpInt),
            0x0011 => Some(StatusPoint::SpDex),
            0x0012 => Some(StatusPoint::SpLuk),
            0x0013 => Some(StatusPoint::SpClass),
            0x0014 => Some(StatusPoint::SpZeny),
            0x0015 => Some(StatusPoint::SpSex),
            0x0016 => Some(StatusPoint::SpNextbaseexp),
            0x0017 => Some(StatusPoint::SpNextjobexp),
            0x0018 => Some(StatusPoint::SpWeight),
            0x0019 => Some(StatusPoint::SpMaxweight),
            0x001a => Some(StatusPoint::Sp1a),
            0x001b => Some(StatusPoint::Sp1b),
            0x001c => Some(StatusPoint::Sp1c),
            0x001d => Some(StatusPoint::Sp1d),
            0x001e => Some(StatusPoint::Sp1e),
            0x001f => Some(StatusPoint::Sp1f),
            0x0020 => Some(StatusPoint::SpUstr),
            0x0021 => Some(StatusPoint::SpUagi),
            0x0022 => Some(StatusPoint::SpUvit),
            0x0023 => Some(StatusPoint::SpUint),
            0x0024 => Some(StatusPoint::SpUdex),
            0x0025 => Some(StatusPoint::SpUluk),
            0x0026 => Some(StatusPoint::Sp26),
            0x0027 => Some(StatusPoint::Sp27),
            0x0028 => Some(StatusPoint::Sp28),
            0x0029 => Some(StatusPoint::SpAtk1),
            0x002a => Some(StatusPoint::SpAtk2),
            0x002b => Some(StatusPoint::SpMatk1),
            0x002c => Some(StatusPoint::SpMatk2),
            0x002d => Some(StatusPoint::SpDef1),
            0x002e => Some(StatusPoint::SpDef2),
            0x002f => Some(StatusPoint::SpMdef1),
            0x0030 => Some(StatusPoint::SpMdef2),
            0x0031 => Some(StatusPoint::SpHit),
            0x0032 => Some(StatusPoint::SpFlee1),
            0x0033 => Some(StatusPoint::SpFlee2),
            0x0034 => Some(StatusPoint::SpCritical),
            0x0035 => Some(StatusPoint::SpAspd),
            0x0036 => Some(StatusPoint::Sp36),
            0x0037 => Some(StatusPoint::SpJoblevel),
            0x0038 => Some(StatusPoint::SpUpper),
            0x0039 => Some(StatusPoint::SpPartner),
            0x003a => Some(StatusPoint::SpCart),
            0x003b => Some(StatusPoint::SpFame),
            0x003c => Some(StatusPoint::SpUnbreakable),
            0x0063 => Some(StatusPoint::SpCartinfo),
            0x00db => Some(StatusPoint::SpPow),
            0x00dc => Some(StatusPoint::SpSta),
            0x00dd => Some(StatusPoint::SpWis),
            0x00de => Some(StatusPoint::SpSpl),
            0x00df => Some(StatusPoint::SpCon),
            0x00e0 => Some(StatusPoint::SpCrt),
            0x00e1 => Some(StatusPoint::SpPatk),
            0x00e2 => Some(StatusPoint::SpSmatk),
            0x00e3 => Some(StatusPoint::SpRes),
            0x00e4 => Some(StatusPoint::SpMres),
            0x00e5 => Some(StatusPoint::SpHplus),
            0x00e6 => Some(StatusPoint::SpCrate),
            0x00e7 => Some(StatusPoint::SpTraitpoint),
            0x00e8 => Some(StatusPoint::SpAp),
            0x00e9 => Some(StatusPoint::SpMaxap),
            0x00f7 => Some(StatusPoint::SpUpow),
            0x00f8 => Some(StatusPoint::SpUsta),
            0x00f9 => Some(StatusPoint::SpUwis),
            0x00fa => Some(StatusPoint::SpUspl),
            0x00fb => Some(StatusPoint::SpUcon),
            0x00fc => Some(StatusPoint::SpUcrt),
            _ => None,
        }
    }
}

} // verus!
