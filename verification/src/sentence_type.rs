//! The three-letter sentence formatters that NMEA 0183 defines.

use vstd::prelude::*;

verus! {

/// A known NMEA 0183 sentence formatter (the three letters after the talker id).
#[derive(Debug, Clone, Copy, PartialEq, Eq, Structural, Hash)]
pub enum SentenceType {
    AAM,
    ABK,
    ABM,
    ACA,
    ACK,
    ACS,
    AIR,
    AKD,
    ALA,
    ALK,
    ALM,
    ALR,
    APA,
    APB,
    ASD,
    BEC,
    BOD,
    BWC,
    BWR,
    BWW,
    CEK,
    COP,
    CUR,
    DBK,
    DBS,
    DBT,
    DCN,
    DDC,
    DOR,
    DPT,
    DSC,
    DSE,
    DSI,
    DSR,
    DTM,
    ETL,
    EVE,
    FIR,
    FSI,
    GBS,
    GEN,
    GFA,
    GGA,
    GLC,
    GLL,
    GMP,
    GNS,
    GRS,
    GSA,
    GST,
    GSV,
    GTD,
    GXA,
    HDG,
    HDM,
    HDT,
    HMR,
    HMS,
    HSC,
    HTC,
    HTD,
    LCD,
    LRF,
    LRI,
    LR1,
    LR2,
    LR3,
    MDA,
    MLA,
    MSK,
    MSS,
    MTW,
    MWD,
    MWV,
    NRM,
    NRX,
    OLN,
    OSD,
    POS,
    PRC,
    RLM,
    RMA,
    RMB,
    RMC,
    RMZ,
    ROO,
    ROR,
    ROT,
    RPM,
    RSA,
    RSD,
    RTE,
    SFI,
    SSD,
    STN,
    TDS,
    TFI,
    TLB,
    TLL,
    TPC,
    TPR,
    TPT,
    TRC,
    TRD,
    TTD,
    TTM,
    TUT,
    TXT,
    VBW,
    VDM,
    VDO,
    VDR,
    VHW,
    VLW,
    VPW,
    VSD,
    VTG,
    VWR,
    VWT,
    WAT,
    WCV,
    WNC,
    WNR,
    WPL,
    XDC,
    XDR,
    XTE,
    XTR,
    ZDA,
    ZDL,
    ZFO,
    ZTG,
}

/// The three characters that name a sentence type.
pub open spec fn spec_code(t: SentenceType) -> (char, char, char) {
    match t {
        SentenceType::AAM => ('A', 'A', 'M'),
        SentenceType::ABK => ('A', 'B', 'K'),
        SentenceType::ABM => ('A', 'B', 'M'),
        SentenceType::ACA => ('A', 'C', 'A'),
        SentenceType::ACK => ('A', 'C', 'K'),
        SentenceType::ACS => ('A', 'C', 'S'),
        SentenceType::AIR => ('A', 'I', 'R'),
        SentenceType::AKD => ('A', 'K', 'D'),
        SentenceType::ALA => ('A', 'L', 'A'),
        SentenceType::ALK => ('A', 'L', 'K'),
        SentenceType::ALM => ('A', 'L', 'M'),
        SentenceType::ALR => ('A', 'L', 'R'),
        SentenceType::APA => ('A', 'P', 'A'),
        SentenceType::APB => ('A', 'P', 'B'),
        SentenceType::ASD => ('A', 'S', 'D'),
        SentenceType::BEC => ('B', 'E', 'C'),
        SentenceType::BOD => ('B', 'O', 'D'),
        SentenceType::BWC => ('B', 'W', 'C'),
        SentenceType::BWR => ('B', 'W', 'R'),
        SentenceType::BWW => ('B', 'W', 'W'),
        SentenceType::CEK => ('C', 'E', 'K'),
        SentenceType::COP => ('C', 'O', 'P'),
        SentenceType::CUR => ('C', 'U', 'R'),
        SentenceType::DBK => ('D', 'B', 'K'),
        SentenceType::DBS => ('D', 'B', 'S'),
        SentenceType::DBT => ('D', 'B', 'T'),
        SentenceType::DCN => ('D', 'C', 'N'),
        SentenceType::DDC => ('D', 'D', 'C'),
        SentenceType::DOR => ('D', 'O', 'R'),
        SentenceType::DPT => ('D', 'P', 'T'),
        SentenceType::DSC => ('D', 'S', 'C'),
        SentenceType::DSE => ('D', 'S', 'E'),
        SentenceType::DSI => ('D', 'S', 'I'),
        SentenceType::DSR => ('D', 'S', 'R'),
        SentenceType::DTM => ('D', 'T', 'M'),
        SentenceType::ETL => ('E', 'T', 'L'),
        SentenceType::EVE => ('E', 'V', 'E'),
        SentenceType::FIR => ('F', 'I', 'R'),
        SentenceType::FSI => ('F', 'S', 'I'),
        SentenceType::GBS => ('G', 'B', 'S'),
        SentenceType::GEN => ('G', 'E', 'N'),
        SentenceType::GFA => ('G', 'F', 'A'),
        SentenceType::GGA => ('G', 'G', 'A'),
        SentenceType::GLC => ('G', 'L', 'C'),
        SentenceType::GLL => ('G', 'L', 'L'),
        SentenceType::GMP => ('G', 'M', 'P'),
        SentenceType::GNS => ('G', 'N', 'S'),
        SentenceType::GRS => ('G', 'R', 'S'),
        SentenceType::GSA => ('G', 'S', 'A'),
        SentenceType::GST => ('G', 'S', 'T'),
        SentenceType::GSV => ('G', 'S', 'V'),
        SentenceType::GTD => ('G', 'T', 'D'),
        SentenceType::GXA => ('G', 'X', 'A'),
        SentenceType::HDG => ('H', 'D', 'G'),
        SentenceType::HDM => ('H', 'D', 'M'),
        SentenceType::HDT => ('H', 'D', 'T'),
        SentenceType::HMR => ('H', 'M', 'R'),
        SentenceType::HMS => ('H', 'M', 'S'),
        SentenceType::HSC => ('H', 'S', 'C'),
        SentenceType::HTC => ('H', 'T', 'C'),
        SentenceType::HTD => ('H', 'T', 'D'),
        SentenceType::LCD => ('L', 'C', 'D'),
        SentenceType::LRF => ('L', 'R', 'F'),
        SentenceType::LRI => ('L', 'R', 'I'),
        SentenceType::LR1 => ('L', 'R', '1'),
        SentenceType::LR2 => ('L', 'R', '2'),
        SentenceType::LR3 => ('L', 'R', '3'),
        SentenceType::MDA => ('M', 'D', 'A'),
        SentenceType::MLA => ('M', 'L', 'A'),
        SentenceType::MSK => ('M', 'S', 'K'),
        SentenceType::MSS => ('M', 'S', 'S'),
        SentenceType::MTW => ('M', 'T', 'W'),
        SentenceType::MWD => ('M', 'W', 'D'),
        SentenceType::MWV => ('M', 'W', 'V'),
        SentenceType::NRM => ('N', 'R', 'M'),
        SentenceType::NRX => ('N', 'R', 'X'),
        SentenceType::OLN => ('O', 'L', 'N'),
        SentenceType::OSD => ('O', 'S', 'D'),
        SentenceType::POS => ('P', 'O', 'S'),
        SentenceType::PRC => ('P', 'R', 'C'),
        SentenceType::RLM => ('R', 'L', 'M'),
        SentenceType::RMA => ('R', 'M', 'A'),
        SentenceType::RMB => ('R', 'M', 'B'),
        SentenceType::RMC => ('R', 'M', 'C'),
        SentenceType::RMZ => ('R', 'M', 'Z'),
        SentenceType::ROO => ('R', 'O', 'O'),
        SentenceType::ROR => ('R', 'O', 'R'),
        SentenceType::ROT => ('R', 'O', 'T'),
        SentenceType::RPM => ('R', 'P', 'M'),
        SentenceType::RSA => ('R', 'S', 'A'),
        SentenceType::RSD => ('R', 'S', 'D'),
        SentenceType::RTE => ('R', 'T', 'E'),
        SentenceType::SFI => ('S', 'F', 'I'),
        SentenceType::SSD => ('S', 'S', 'D'),
        SentenceType::STN => ('S', 'T', 'N'),
        SentenceType::TDS => ('T', 'D', 'S'),
        SentenceType::TFI => ('T', 'F', 'I'),
        SentenceType::TLB => ('T', 'L', 'B'),
        SentenceType::TLL => ('T', 'L', 'L'),
        SentenceType::TPC => ('T', 'P', 'C'),
        SentenceType::TPR => ('T', 'P', 'R'),
        SentenceType::TPT => ('T', 'P', 'T'),
        SentenceType::TRC => ('T', 'R', 'C'),
        SentenceType::TRD => ('T', 'R', 'D'),
        SentenceType::TTD => ('T', 'T', 'D'),
        SentenceType::TTM => ('T', 'T', 'M'),
        SentenceType::TUT => ('T', 'U', 'T'),
        SentenceType::TXT => ('T', 'X', 'T'),
        SentenceType::VBW => ('V', 'B', 'W'),
        SentenceType::VDM => ('V', 'D', 'M'),
        SentenceType::VDO => ('V', 'D', 'O'),
        SentenceType::VDR => ('V', 'D', 'R'),
        SentenceType::VHW => ('V', 'H', 'W'),
        SentenceType::VLW => ('V', 'L', 'W'),
        SentenceType::VPW => ('V', 'P', 'W'),
        SentenceType::VSD => ('V', 'S', 'D'),
        SentenceType::VTG => ('V', 'T', 'G'),
        SentenceType::VWR => ('V', 'W', 'R'),
        SentenceType::VWT => ('V', 'W', 'T'),
        SentenceType::WAT => ('W', 'A', 'T'),
        SentenceType::WCV => ('W', 'C', 'V'),
        SentenceType::WNC => ('W', 'N', 'C'),
        SentenceType::WNR => ('W', 'N', 'R'),
        SentenceType::WPL => ('W', 'P', 'L'),
        SentenceType::XDC => ('X', 'D', 'C'),
        SentenceType::XDR => ('X', 'D', 'R'),
        SentenceType::XTE => ('X', 'T', 'E'),
        SentenceType::XTR => ('X', 'T', 'R'),
        SentenceType::ZDA => ('Z', 'D', 'A'),
        SentenceType::ZDL => ('Z', 'D', 'L'),
        SentenceType::ZFO => ('Z', 'F', 'O'),
        SentenceType::ZTG => ('Z', 'T', 'G'),
    }
}

/// The sentence type that three characters name, if any.
pub open spec fn spec_from_code(a: char, b: char, c: char) -> Option<SentenceType> {
    match (a, b, c) {
        ('A', 'A', 'M') => Some(SentenceType::AAM),
        ('A', 'B', 'K') => Some(SentenceType::ABK),
        ('A', 'B', 'M') => Some(SentenceType::ABM),
        ('A', 'C', 'A') => Some(SentenceType::ACA),
        ('A', 'C', 'K') => Some(SentenceType::ACK),
        ('A', 'C', 'S') => Some(SentenceType::ACS),
        ('A', 'I', 'R') => Some(SentenceType::AIR),
        ('A', 'K', 'D') => Some(SentenceType::AKD),
        ('A', 'L', 'A') => Some(SentenceType::ALA),
        ('A', 'L', 'K') => Some(SentenceType::ALK),
        ('A', 'L', 'M') => Some(SentenceType::ALM),
        ('A', 'L', 'R') => Some(SentenceType::ALR),
        ('A', 'P', 'A') => Some(SentenceType::APA),
        ('A', 'P', 'B') => Some(SentenceType::APB),
        ('A', 'S', 'D') => Some(SentenceType::ASD),
        ('B', 'E', 'C') => Some(SentenceType::BEC),
        ('B', 'O', 'D') => Some(SentenceType::BOD),
        ('B', 'W', 'C') => Some(SentenceType::BWC),
        ('B', 'W', 'R') => Some(SentenceType::BWR),
        ('B', 'W', 'W') => Some(SentenceType::BWW),
        ('C', 'E', 'K') => Some(SentenceType::CEK),
        ('C', 'O', 'P') => Some(SentenceType::COP),
        ('C', 'U', 'R') => Some(SentenceType::CUR),
        ('D', 'B', 'K') => Some(SentenceType::DBK),
        ('D', 'B', 'S') => Some(SentenceType::DBS),
        ('D', 'B', 'T') => Some(SentenceType::DBT),
        ('D', 'C', 'N') => Some(SentenceType::DCN),
        ('D', 'D', 'C') => Some(SentenceType::DDC),
        ('D', 'O', 'R') => Some(SentenceType::DOR),
        ('D', 'P', 'T') => Some(SentenceType::DPT),
        ('D', 'S', 'C') => Some(SentenceType::DSC),
        ('D', 'S', 'E') => Some(SentenceType::DSE),
        ('D', 'S', 'I') => Some(SentenceType::DSI),
        ('D', 'S', 'R') => Some(SentenceType::DSR),
        ('D', 'T', 'M') => Some(SentenceType::DTM),
        ('E', 'T', 'L') => Some(SentenceType::ETL),
        ('E', 'V', 'E') => Some(SentenceType::EVE),
        ('F', 'I', 'R') => Some(SentenceType::FIR),
        ('F', 'S', 'I') => Some(SentenceType::FSI),
        ('G', 'B', 'S') => Some(SentenceType::GBS),
        ('G', 'E', 'N') => Some(SentenceType::GEN),
        ('G', 'F', 'A') => Some(SentenceType::GFA),
        ('G', 'G', 'A') => Some(SentenceType::GGA),
        ('G', 'L', 'C') => Some(SentenceType::GLC),
        ('G', 'L', 'L') => Some(SentenceType::GLL),
        ('G', 'M', 'P') => Some(SentenceType::GMP),
        ('G', 'N', 'S') => Some(SentenceType::GNS),
        ('G', 'R', 'S') => Some(SentenceType::GRS),
        ('G', 'S', 'A') => Some(SentenceType::GSA),
        ('G', 'S', 'T') => Some(SentenceType::GST),
        ('G', 'S', 'V') => Some(SentenceType::GSV),
        ('G', 'T', 'D') => Some(SentenceType::GTD),
        ('G', 'X', 'A') => Some(SentenceType::GXA),
        ('H', 'D', 'G') => Some(SentenceType::HDG),
        ('H', 'D', 'M') => Some(SentenceType::HDM),
        ('H', 'D', 'T') => Some(SentenceType::HDT),
        ('H', 'M', 'R') => Some(SentenceType::HMR),
        ('H', 'M', 'S') => Some(SentenceType::HMS),
        ('H', 'S', 'C') => Some(SentenceType::HSC),
        ('H', 'T', 'C') => Some(SentenceType::HTC),
        ('H', 'T', 'D') => Some(SentenceType::HTD),
        ('L', 'C', 'D') => Some(SentenceType::LCD),
        ('L', 'R', 'F') => Some(SentenceType::LRF),
        ('L', 'R', 'I') => Some(SentenceType::LRI),
        ('L', 'R', '1') => Some(SentenceType::LR1),
        ('L', 'R', '2') => Some(SentenceType::LR2),
        ('L', 'R', '3') => Some(SentenceType::LR3),
        ('M', 'D', 'A') => Some(SentenceType::MDA),
        ('M', 'L', 'A') => Some(SentenceType::MLA),
        ('M', 'S', 'K') => Some(SentenceType::MSK),
        ('M', 'S', 'S') => Some(SentenceType::MSS),
        ('M', 'T', 'W') => Some(SentenceType::MTW),
        ('M', 'W', 'D') => Some(SentenceType::MWD),
        ('M', 'W', 'V') => Some(SentenceType::MWV),
        ('N', 'R', 'M') => Some(SentenceType::NRM),
        ('N', 'R', 'X') => Some(SentenceType::NRX),
        ('O', 'L', 'N') => Some(SentenceType::OLN),
        ('O', 'S', 'D') => Some(SentenceType::OSD),
        ('P', 'O', 'S') => Some(SentenceType::POS),
        ('P', 'R', 'C') => Some(SentenceType::PRC),
        ('R', 'L', 'M') => Some(SentenceType::RLM),
        ('R', 'M', 'A') => Some(SentenceType::RMA),
        ('R', 'M', 'B') => Some(SentenceType::RMB),
        ('R', 'M', 'C') => Some(SentenceType::RMC),
        ('R', 'M', 'Z') => Some(SentenceType::RMZ),
        ('R', 'O', 'O') => Some(SentenceType::ROO),
        ('R', 'O', 'R') => Some(SentenceType::ROR),
        ('R', 'O', 'T') => Some(SentenceType::ROT),
        ('R', 'P', 'M') => Some(SentenceType::RPM),
        ('R', 'S', 'A') => Some(SentenceType::RSA),
        ('R', 'S', 'D') => Some(SentenceType::RSD),
        ('R', 'T', 'E') => Some(SentenceType::RTE),
        ('S', 'F', 'I') => Some(SentenceType::SFI),
        ('S', 'S', 'D') => Some(SentenceType::SSD),
        ('S', 'T', 'N') => Some(SentenceType::STN),
        ('T', 'D', 'S') => Some(SentenceType::TDS),
        ('T', 'F', 'I') => Some(SentenceType::TFI),
        ('T', 'L', 'B') => Some(SentenceType::TLB),
        ('T', 'L', 'L') => Some(SentenceType::TLL),
        ('T', 'P', 'C') => Some(SentenceType::TPC),
        ('T', 'P', 'R') => Some(SentenceType::TPR),
        ('T', 'P', 'T') => Some(SentenceType::TPT),
        ('T', 'R', 'C') => Some(SentenceType::TRC),
        ('T', 'R', 'D') => Some(SentenceType::TRD),
        ('T', 'T', 'D') => Some(SentenceType::TTD),
        ('T', 'T', 'M') => Some(SentenceType::TTM),
        ('T', 'U', 'T') => Some(SentenceType::TUT),
        ('T', 'X', 'T') => Some(SentenceType::TXT),
        ('V', 'B', 'W') => Some(SentenceType::VBW),
        ('V', 'D', 'M') => Some(SentenceType::VDM),
        ('V', 'D', 'O') => Some(SentenceType::VDO),
        ('V', 'D', 'R') => Some(SentenceType::VDR),
        ('V', 'H', 'W') => Some(SentenceType::VHW),
        ('V', 'L', 'W') => Some(SentenceType::VLW),
        ('V', 'P', 'W') => Some(SentenceType::VPW),
        ('V', 'S', 'D') => Some(SentenceType::VSD),
        ('V', 'T', 'G') => Some(SentenceType::VTG),
        ('V', 'W', 'R') => Some(SentenceType::VWR),
        ('V', 'W', 'T') => Some(SentenceType::VWT),
        ('W', 'A', 'T') => Some(SentenceType::WAT),
        ('W', 'C', 'V') => Some(SentenceType::WCV),
        ('W', 'N', 'C') => Some(SentenceType::WNC),
        ('W', 'N', 'R') => Some(SentenceType::WNR),
        ('W', 'P', 'L') => Some(SentenceType::WPL),
        ('X', 'D', 'C') => Some(SentenceType::XDC),
        ('X', 'D', 'R') => Some(SentenceType::XDR),
        ('X', 'T', 'E') => Some(SentenceType::XTE),
        ('X', 'T', 'R') => Some(SentenceType::XTR),
        ('Z', 'D', 'A') => Some(SentenceType::ZDA),
        ('Z', 'D', 'L') => Some(SentenceType::ZDL),
        ('Z', 'F', 'O') => Some(SentenceType::ZFO),
        ('Z', 'T', 'G') => Some(SentenceType::ZTG),
        _ => None,
    }
}

impl SentenceType {
    /// The three characters of this sentence type.
    pub fn code(self) -> (r: (char, char, char))
        ensures
            r == spec_code(self),
    {
        match self {
            SentenceType::AAM => ('A', 'A', 'M'),
            SentenceType::ABK => ('A', 'B', 'K'),
            SentenceType::ABM => ('A', 'B', 'M'),
            SentenceType::ACA => ('A', 'C', 'A'),
            SentenceType::ACK => ('A', 'C', 'K'),
            SentenceType::ACS => ('A', 'C', 'S'),
            SentenceType::AIR => ('A', 'I', 'R'),
            SentenceType::AKD => ('A', 'K', 'D'),
            SentenceType::ALA => ('A', 'L', 'A'),
            SentenceType::ALK => ('A', 'L', 'K'),
            SentenceType::ALM => ('A', 'L', 'M'),
            SentenceType::ALR => ('A', 'L', 'R'),
            SentenceType::APA => ('A', 'P', 'A'),
            SentenceType::APB => ('A', 'P', 'B'),
            SentenceType::ASD => ('A', 'S', 'D'),
            SentenceType::BEC => ('B', 'E', 'C'),
            SentenceType::BOD => ('B', 'O', 'D'),
            SentenceType::BWC => ('B', 'W', 'C'),
            SentenceType::BWR => ('B', 'W', 'R'),
            SentenceType::BWW => ('B', 'W', 'W'),
            SentenceType::CEK => ('C', 'E', 'K'),
            SentenceType::COP => ('C', 'O', 'P'),
            SentenceType::CUR => ('C', 'U', 'R'),
            SentenceType::DBK => ('D', 'B', 'K'),
            SentenceType::DBS => ('D', 'B', 'S'),
            SentenceType::DBT => ('D', 'B', 'T'),
            SentenceType::DCN => ('D', 'C', 'N'),
            SentenceType::DDC => ('D', 'D', 'C'),
            SentenceType::DOR => ('D', 'O', 'R'),
            SentenceType::DPT => ('D', 'P', 'T'),
            SentenceType::DSC => ('D', 'S', 'C'),
            SentenceType::DSE => ('D', 'S', 'E'),
            SentenceType::DSI => ('D', 'S', 'I'),
            SentenceType::DSR => ('D', 'S', 'R'),
            SentenceType::DTM => ('D', 'T', 'M'),
            SentenceType::ETL => ('E', 'T', 'L'),
            SentenceType::EVE => ('E', 'V', 'E'),
            SentenceType::FIR => ('F', 'I', 'R'),
            SentenceType::FSI => ('F', 'S', 'I'),
            SentenceType::GBS => ('G', 'B', 'S'),
            SentenceType::GEN => ('G', 'E', 'N'),
            SentenceType::GFA => ('G', 'F', 'A'),
            SentenceType::GGA => ('G', 'G', 'A'),
            SentenceType::GLC => ('G', 'L', 'C'),
            SentenceType::GLL => ('G', 'L', 'L'),
            SentenceType::GMP => ('G', 'M', 'P'),
            SentenceType::GNS => ('G', 'N', 'S'),
            SentenceType::GRS => ('G', 'R', 'S'),
            SentenceType::GSA => ('G', 'S', 'A'),
            SentenceType::GST => ('G', 'S', 'T'),
            SentenceType::GSV => ('G', 'S', 'V'),
            SentenceType::GTD => ('G', 'T', 'D'),
            SentenceType::GXA => ('G', 'X', 'A'),
            SentenceType::HDG => ('H', 'D', 'G'),
            SentenceType::HDM => ('H', 'D', 'M'),
            SentenceType::HDT => ('H', 'D', 'T'),
            SentenceType::HMR => ('H', 'M', 'R'),
            SentenceType::HMS => ('H', 'M', 'S'),
            SentenceType::HSC => ('H', 'S', 'C'),
            SentenceType::HTC => ('H', 'T', 'C'),
            SentenceType::HTD => ('H', 'T', 'D'),
            SentenceType::LCD => ('L', 'C', 'D'),
            SentenceType::LRF => ('L', 'R', 'F'),
            SentenceType::LRI => ('L', 'R', 'I'),
            SentenceType::LR1 => ('L', 'R', '1'),
            SentenceType::LR2 => ('L', 'R', '2'),
            SentenceType::LR3 => ('L', 'R', '3'),
            SentenceType::MDA => ('M', 'D', 'A'),
            SentenceType::MLA => ('M', 'L', 'A'),
            SentenceType::MSK => ('M', 'S', 'K'),
            SentenceType::MSS => ('M', 'S', 'S'),
            SentenceType::MTW => ('M', 'T', 'W'),
            SentenceType::MWD => ('M', 'W', 'D'),
            SentenceType::MWV => ('M', 'W', 'V'),
            SentenceType::NRM => ('N', 'R', 'M'),
            SentenceType::NRX => ('N', 'R', 'X'),
            SentenceType::OLN => ('O', 'L', 'N'),
            SentenceType::OSD => ('O', 'S', 'D'),
            SentenceType::POS => ('P', 'O', 'S'),
            SentenceType::PRC => ('P', 'R', 'C'),
            SentenceType::RLM => ('R', 'L', 'M'),
            SentenceType::RMA => ('R', 'M', 'A'),
            SentenceType::RMB => ('R', 'M', 'B'),
            SentenceType::RMC => ('R', 'M', 'C'),
            SentenceType::RMZ => ('R', 'M', 'Z'),
            SentenceType::ROO => ('R', 'O', 'O'),
            SentenceType::ROR => ('R', 'O', 'R'),
            SentenceType::ROT => ('R', 'O', 'T'),
            SentenceType::RPM => ('R', 'P', 'M'),
            SentenceType::RSA => ('R', 'S', 'A'),
            SentenceType::RSD => ('R', 'S', 'D'),
            SentenceType::RTE => ('R', 'T', 'E'),
            SentenceType::SFI => ('S', 'F', 'I'),
            SentenceType::SSD => ('S', 'S', 'D'),
            SentenceType::STN => ('S', 'T', 'N'),
            SentenceType::TDS => ('T', 'D', 'S'),
            SentenceType::TFI => ('T', 'F', 'I'),
            SentenceType::TLB => ('T', 'L', 'B'),
            SentenceType::TLL => ('T', 'L', 'L'),
            SentenceType::TPC => ('T', 'P', 'C'),
            SentenceType::TPR => ('T', 'P', 'R'),
            SentenceType::TPT => ('T', 'P', 'T'),
            SentenceType::TRC => ('T', 'R', 'C'),
            SentenceType::TRD => ('T', 'R', 'D'),
            SentenceType::TTD => ('T', 'T', 'D'),
            SentenceType::TTM => ('T', 'T', 'M'),
            SentenceType::TUT => ('T', 'U', 'T'),
            SentenceType::TXT => ('T', 'X', 'T'),
            SentenceType::VBW => ('V', 'B', 'W'),
            SentenceType::VDM => ('V', 'D', 'M'),
            SentenceType::VDO => ('V', 'D', 'O'),
            SentenceType::VDR => ('V', 'D', 'R'),
            SentenceType::VHW => ('V', 'H', 'W'),
            SentenceType::VLW => ('V', 'L', 'W'),
            SentenceType::VPW => ('V', 'P', 'W'),
            SentenceType::VSD => ('V', 'S', 'D'),
            SentenceType::VTG => ('V', 'T', 'G'),
            SentenceType::VWR => ('V', 'W', 'R'),
            SentenceType::VWT => ('V', 'W', 'T'),
            SentenceType::WAT => ('W', 'A', 'T'),
            SentenceType::WCV => ('W', 'C', 'V'),
            SentenceType::WNC => ('W', 'N', 'C'),
            SentenceType::WNR => ('W', 'N', 'R'),
            SentenceType::WPL => ('W', 'P', 'L'),
            SentenceType::XDC => ('X', 'D', 'C'),
            SentenceType::XDR => ('X', 'D', 'R'),
            SentenceType::XTE => ('X', 'T', 'E'),
            SentenceType::XTR => ('X', 'T', 'R'),
            SentenceType::ZDA => ('Z', 'D', 'A'),
            SentenceType::ZDL => ('Z', 'D', 'L'),
            SentenceType::ZFO => ('Z', 'F', 'O'),
            SentenceType::ZTG => ('Z', 'T', 'G'),
        }
    }

    /// Looks up the sentence type named by three characters.
    pub fn from_code(a: char, b: char, c: char) -> (r: Option<SentenceType>)
        ensures
            r == spec_from_code(a, b, c),
    {
        match (a, b, c) {
            ('A', 'A', 'M') => Some(SentenceType::AAM),
            ('A', 'B', 'K') => Some(SentenceType::ABK),
            ('A', 'B', 'M') => Some(SentenceType::ABM),
            ('A', 'C', 'A') => Some(SentenceType::ACA),
            ('A', 'C', 'K') => Some(SentenceType::ACK),
            ('A', 'C', 'S') => Some(SentenceType::ACS),
            ('A', 'I', 'R') => Some(SentenceType::AIR),
            ('A', 'K', 'D') => Some(SentenceType::AKD),
            ('A', 'L', 'A') => Some(SentenceType::ALA),
            ('A', 'L', 'K') => Some(SentenceType::ALK),
            ('A', 'L', 'M') => Some(SentenceType::ALM),
            ('A', 'L', 'R') => Some(SentenceType::ALR),
            ('A', 'P', 'A') => Some(SentenceType::APA),
            ('A', 'P', 'B') => Some(SentenceType::APB),
            ('A', 'S', 'D') => Some(SentenceType::ASD),
            ('B', 'E', 'C') => Some(SentenceType::BEC),
            ('B', 'O', 'D') => Some(SentenceType::BOD),
            ('B', 'W', 'C') => Some(SentenceType::BWC),
            ('B', 'W', 'R') => Some(SentenceType::BWR),
            ('B', 'W', 'W') => Some(SentenceType::BWW),
            ('C', 'E', 'K') => Some(SentenceType::CEK),
            ('C', 'O', 'P') => Some(SentenceType::COP),
            ('C', 'U', 'R') => Some(SentenceType::CUR),
            ('D', 'B', 'K') => Some(SentenceType::DBK),
            ('D', 'B', 'S') => Some(SentenceType::DBS),
            ('D', 'B', 'T') => Some(SentenceType::DBT),
            ('D', 'C', 'N') => Some(SentenceType::DCN),
            ('D', 'D', 'C') => Some(SentenceType::DDC),
            ('D', 'O', 'R') => Some(SentenceType::DOR),
            ('D', 'P', 'T') => Some(SentenceType::DPT),
            ('D', 'S', 'C') => Some(SentenceType::DSC),
            ('D', 'S', 'E') => Some(SentenceType::DSE),
            ('D', 'S', 'I') => Some(SentenceType::DSI),
            ('D', 'S', 'R') => Some(SentenceType::DSR),
            ('D', 'T', 'M') => Some(SentenceType::DTM),
            ('E', 'T', 'L') => Some(SentenceType::ETL),
            ('E', 'V', 'E') => Some(SentenceType::EVE),
            ('F', 'I', 'R') => Some(SentenceType::FIR),
            ('F', 'S', 'I') => Some(SentenceType::FSI),
            ('G', 'B', 'S') => Some(SentenceType::GBS),
            ('G', 'E', 'N') => Some(SentenceType::GEN),
            ('G', 'F', 'A') => Some(SentenceType::GFA),
            ('G', 'G', 'A') => Some(SentenceType::GGA),
            ('G', 'L', 'C') => Some(SentenceType::GLC),
            ('G', 'L', 'L') => Some(SentenceType::GLL),
            ('G', 'M', 'P') => Some(SentenceType::GMP),
            ('G', 'N', 'S') => Some(SentenceType::GNS),
            ('G', 'R', 'S') => Some(SentenceType::GRS),
            ('G', 'S', 'A') => Some(SentenceType::GSA),
            ('G', 'S', 'T') => Some(SentenceType::GST),
            ('G', 'S', 'V') => Some(SentenceType::GSV),
            ('G', 'T', 'D') => Some(SentenceType::GTD),
            ('G', 'X', 'A') => Some(SentenceType::GXA),
            ('H', 'D', 'G') => Some(SentenceType::HDG),
            ('H', 'D', 'M') => Some(SentenceType::HDM),
            ('H', 'D', 'T') => Some(SentenceType::HDT),
            ('H', 'M', 'R') => Some(SentenceType::HMR),
            ('H', 'M', 'S') => Some(SentenceType::HMS),
            ('H', 'S', 'C') => Some(SentenceType::HSC),
            ('H', 'T', 'C') => Some(SentenceType::HTC),
            ('H', 'T', 'D') => Some(SentenceType::HTD),
            ('L', 'C', 'D') => Some(SentenceType::LCD),
            ('L', 'R', 'F') => Some(SentenceType::LRF),
            ('L', 'R', 'I') => Some(SentenceType::LRI),
            ('L', 'R', '1') => Some(SentenceType::LR1),
            ('L', 'R', '2') => Some(SentenceType::LR2),
            ('L', 'R', '3') => Some(SentenceType::LR3),
            ('M', 'D', 'A') => Some(SentenceType::MDA),
            ('M', 'L', 'A') => Some(SentenceType::MLA),
            ('M', 'S', 'K') => Some(SentenceType::MSK),
            ('M', 'S', 'S') => Some(SentenceType::MSS),
            ('M', 'T', 'W') => Some(SentenceType::MTW),
            ('M', 'W', 'D') => Some(SentenceType::MWD),
            ('M', 'W', 'V') => Some(SentenceType::MWV),
            ('N', 'R', 'M') => Some(SentenceType::NRM),
            ('N', 'R', 'X') => Some(SentenceType::NRX),
            ('O', 'L', 'N') => Some(SentenceType::OLN),
            ('O', 'S', 'D') => Some(SentenceType::OSD),
            ('P', 'O', 'S') => Some(SentenceType::POS),
            ('P', 'R', 'C') => Some(SentenceType::PRC),
            ('R', 'L', 'M') => Some(SentenceType::RLM),
            ('R', 'M', 'A') => Some(SentenceType::RMA),
            ('R', 'M', 'B') => Some(SentenceType::RMB),
            ('R', 'M', 'C') => Some(SentenceType::RMC),
            ('R', 'M', 'Z') => Some(SentenceType::RMZ),
            ('R', 'O', 'O') => Some(SentenceType::ROO),
            ('R', 'O', 'R') => Some(SentenceType::ROR),
            ('R', 'O', 'T') => Some(SentenceType::ROT),
            ('R', 'P', 'M') => Some(SentenceType::RPM),
            ('R', 'S', 'A') => Some(SentenceType::RSA),
            ('R', 'S', 'D') => Some(SentenceType::RSD),
            ('R', 'T', 'E') => Some(SentenceType::RTE),
            ('S', 'F', 'I') => Some(SentenceType::SFI),
            ('S', 'S', 'D') => Some(SentenceType::SSD),
            ('S', 'T', 'N') => Some(SentenceType::STN),
            ('T', 'D', 'S') => Some(SentenceType::TDS),
            ('T', 'F', 'I') => Some(SentenceType::TFI),
            ('T', 'L', 'B') => Some(SentenceType::TLB),
            ('T', 'L', 'L') => Some(SentenceType::TLL),
            ('T', 'P', 'C') => Some(SentenceType::TPC),
            ('T', 'P', 'R') => Some(SentenceType::TPR),
            ('T', 'P', 'T') => Some(SentenceType::TPT),
            ('T', 'R', 'C') => Some(SentenceType::TRC),
            ('T', 'R', 'D') => Some(SentenceType::TRD),
            ('T', 'T', 'D') => Some(SentenceType::TTD),
            ('T', 'T', 'M') => Some(SentenceType::TTM),
            ('T', 'U', 'T') => Some(SentenceType::TUT),
            ('T', 'X', 'T') => Some(SentenceType::TXT),
            ('V', 'B', 'W') => Some(SentenceType::VBW),
            ('V', 'D', 'M') => Some(SentenceType::VDM),
            ('V', 'D', 'O') => Some(SentenceType::VDO),
            ('V', 'D', 'R') => Some(SentenceType::VDR),
            ('V', 'H', 'W') => Some(SentenceType::VHW),
            ('V', 'L', 'W') => Some(SentenceType::VLW),
            ('V', 'P', 'W') => Some(SentenceType::VPW),
            ('V', 'S', 'D') => Some(SentenceType::VSD),
            ('V', 'T', 'G') => Some(SentenceType::VTG),
            ('V', 'W', 'R') => Some(SentenceType::VWR),
            ('V', 'W', 'T') => Some(SentenceType::VWT),
            ('W', 'A', 'T') => Some(SentenceType::WAT),
            ('W', 'C', 'V') => Some(SentenceType::WCV),
            ('W', 'N', 'C') => Some(SentenceType::WNC),
            ('W', 'N', 'R') => Some(SentenceType::WNR),
            ('W', 'P', 'L') => Some(SentenceType::WPL),
            ('X', 'D', 'C') => Some(SentenceType::XDC),
            ('X', 'D', 'R') => Some(SentenceType::XDR),
            ('X', 'T', 'E') => Some(SentenceType::XTE),
            ('X', 'T', 'R') => Some(SentenceType::XTR),
            ('Z', 'D', 'A') => Some(SentenceType::ZDA),
            ('Z', 'D', 'L') => Some(SentenceType::ZDL),
            ('Z', 'F', 'O') => Some(SentenceType::ZFO),
            ('Z', 'T', 'G') => Some(SentenceType::ZTG),
            _ => None,
        }
    }
}

/// Every sentence type is found again from its own code, and a code names
/// at most one sentence type: the code is a one-to-one naming.
pub proof fn lemma_code_round_trip(t: SentenceType)
    ensures
        spec_from_code(spec_code(t).0, spec_code(t).1, spec_code(t).2) == Some(t),
{
}

/// A code that names a sentence type is that type's code.
pub proof fn lemma_from_code_inverse(a: char, b: char, c: char)
    ensures
        spec_from_code(a, b, c) matches Some(t) ==> spec_code(t) == (a, b, c),
{
}

/// Every character of a sentence type's code is an upper-case ASCII letter or digit.
pub proof fn lemma_code_is_ascii(t: SentenceType)
    ensures
        is_code_char(spec_code(t).0),
        is_code_char(spec_code(t).1),
        is_code_char(spec_code(t).2),
{
}

/// An upper-case ASCII letter or an ASCII digit.
pub open spec fn is_code_char(c: char) -> bool {
    ('A' <= c && c <= 'Z') || ('0' <= c && c <= '9')
}

/// Each sentence type is named by the three letters of its formatter: it is
/// written as the letters that spell its name, and those letters, read from
/// a frame, name it.
#[verifier::spinoff_prover]
#[verifier::rlimit(50)]
pub proof fn lemma_code_spells_name(t: SentenceType)
    ensures
        match t {
            SentenceType::AAM => spec_code(t) == ('A', 'A', 'M') && spec_from_code('A', 'A', 'M') == Some(t),
            SentenceType::ABK => spec_code(t) == ('A', 'B', 'K') && spec_from_code('A', 'B', 'K') == Some(t),
            SentenceType::ABM => spec_code(t) == ('A', 'B', 'M') && spec_from_code('A', 'B', 'M') == Some(t),
            SentenceType::ACA => spec_code(t) == ('A', 'C', 'A') && spec_from_code('A', 'C', 'A') == Some(t),
            SentenceType::ACK => spec_code(t) == ('A', 'C', 'K') && spec_from_code('A', 'C', 'K') == Some(t),
            SentenceType::ACS => spec_code(t) == ('A', 'C', 'S') && spec_from_code('A', 'C', 'S') == Some(t),
            SentenceType::AIR => spec_code(t) == ('A', 'I', 'R') && spec_from_code('A', 'I', 'R') == Some(t),
            SentenceType::AKD => spec_code(t) == ('A', 'K', 'D') && spec_from_code('A', 'K', 'D') == Some(t),
            SentenceType::ALA => spec_code(t) == ('A', 'L', 'A') && spec_from_code('A', 'L', 'A') == Some(t),
            SentenceType::ALK => spec_code(t) == ('A', 'L', 'K') && spec_from_code('A', 'L', 'K') == Some(t),
            SentenceType::ALM => spec_code(t) == ('A', 'L', 'M') && spec_from_code('A', 'L', 'M') == Some(t),
            SentenceType::ALR => spec_code(t) == ('A', 'L', 'R') && spec_from_code('A', 'L', 'R') == Some(t),
            SentenceType::APA => spec_code(t) == ('A', 'P', 'A') && spec_from_code('A', 'P', 'A') == Some(t),
            SentenceType::APB => spec_code(t) == ('A', 'P', 'B') && spec_from_code('A', 'P', 'B') == Some(t),
            SentenceType::ASD => spec_code(t) == ('A', 'S', 'D') && spec_from_code('A', 'S', 'D') == Some(t),
            SentenceType::BEC => spec_code(t) == ('B', 'E', 'C') && spec_from_code('B', 'E', 'C') == Some(t),
            SentenceType::BOD => spec_code(t) == ('B', 'O', 'D') && spec_from_code('B', 'O', 'D') == Some(t),
            SentenceType::BWC => spec_code(t) == ('B', 'W', 'C') && spec_from_code('B', 'W', 'C') == Some(t),
            SentenceType::BWR => spec_code(t) == ('B', 'W', 'R') && spec_from_code('B', 'W', 'R') == Some(t),
            SentenceType::BWW => spec_code(t) == ('B', 'W', 'W') && spec_from_code('B', 'W', 'W') == Some(t),
            SentenceType::CEK => spec_code(t) == ('C', 'E', 'K') && spec_from_code('C', 'E', 'K') == Some(t),
            SentenceType::COP => spec_code(t) == ('C', 'O', 'P') && spec_from_code('C', 'O', 'P') == Some(t),
            SentenceType::CUR => spec_code(t) == ('C', 'U', 'R') && spec_from_code('C', 'U', 'R') == Some(t),
            SentenceType::DBK => spec_code(t) == ('D', 'B', 'K') && spec_from_code('D', 'B', 'K') == Some(t),
            SentenceType::DBS => spec_code(t) == ('D', 'B', 'S') && spec_from_code('D', 'B', 'S') == Some(t),
            SentenceType::DBT => spec_code(t) == ('D', 'B', 'T') && spec_from_code('D', 'B', 'T') == Some(t),
            SentenceType::DCN => spec_code(t) == ('D', 'C', 'N') && spec_from_code('D', 'C', 'N') == Some(t),
            SentenceType::DDC => spec_code(t) == ('D', 'D', 'C') && spec_from_code('D', 'D', 'C') == Some(t),
            SentenceType::DOR => spec_code(t) == ('D', 'O', 'R') && spec_from_code('D', 'O', 'R') == Some(t),
            SentenceType::DPT => spec_code(t) == ('D', 'P', 'T') && spec_from_code('D', 'P', 'T') == Some(t),
            SentenceType::DSC => spec_code(t) == ('D', 'S', 'C') && spec_from_code('D', 'S', 'C') == Some(t),
            SentenceType::DSE => spec_code(t) == ('D', 'S', 'E') && spec_from_code('D', 'S', 'E') == Some(t),
            SentenceType::DSI => spec_code(t) == ('D', 'S', 'I') && spec_from_code('D', 'S', 'I') == Some(t),
            SentenceType::DSR => spec_code(t) == ('D', 'S', 'R') && spec_from_code('D', 'S', 'R') == Some(t),
            SentenceType::DTM => spec_code(t) == ('D', 'T', 'M') && spec_from_code('D', 'T', 'M') == Some(t),
            SentenceType::ETL => spec_code(t) == ('E', 'T', 'L') && spec_from_code('E', 'T', 'L') == Some(t),
            SentenceType::EVE => spec_code(t) == ('E', 'V', 'E') && spec_from_code('E', 'V', 'E') == Some(t),
            SentenceType::FIR => spec_code(t) == ('F', 'I', 'R') && spec_from_code('F', 'I', 'R') == Some(t),
            SentenceType::FSI => spec_code(t) == ('F', 'S', 'I') && spec_from_code('F', 'S', 'I') == Some(t),
            SentenceType::GBS => spec_code(t) == ('G', 'B', 'S') && spec_from_code('G', 'B', 'S') == Some(t),
            SentenceType::GEN => spec_code(t) == ('G', 'E', 'N') && spec_from_code('G', 'E', 'N') == Some(t),
            SentenceType::GFA => spec_code(t) == ('G', 'F', 'A') && spec_from_code('G', 'F', 'A') == Some(t),
            SentenceType::GGA => spec_code(t) == ('G', 'G', 'A') && spec_from_code('G', 'G', 'A') == Some(t),
            SentenceType::GLC => spec_code(t) == ('G', 'L', 'C') && spec_from_code('G', 'L', 'C') == Some(t),
            SentenceType::GLL => spec_code(t) == ('G', 'L', 'L') && spec_from_code('G', 'L', 'L') == Some(t),
            SentenceType::GMP => spec_code(t) == ('G', 'M', 'P') && spec_from_code('G', 'M', 'P') == Some(t),
            SentenceType::GNS => spec_code(t) == ('G', 'N', 'S') && spec_from_code('G', 'N', 'S') == Some(t),
            SentenceType::GRS => spec_code(t) == ('G', 'R', 'S') && spec_from_code('G', 'R', 'S') == Some(t),
            SentenceType::GSA => spec_code(t) == ('G', 'S', 'A') && spec_from_code('G', 'S', 'A') == Some(t),
            SentenceType::GST => spec_code(t) == ('G', 'S', 'T') && spec_from_code('G', 'S', 'T') == Some(t),
            SentenceType::GSV => spec_code(t) == ('G', 'S', 'V') && spec_from_code('G', 'S', 'V') == Some(t),
            SentenceType::GTD => spec_code(t) == ('G', 'T', 'D') && spec_from_code('G', 'T', 'D') == Some(t),
            SentenceType::GXA => spec_code(t) == ('G', 'X', 'A') && spec_from_code('G', 'X', 'A') == Some(t),
            SentenceType::HDG => spec_code(t) == ('H', 'D', 'G') && spec_from_code('H', 'D', 'G') == Some(t),
            SentenceType::HDM => spec_code(t) == ('H', 'D', 'M') && spec_from_code('H', 'D', 'M') == Some(t),
            SentenceType::HDT => spec_code(t) == ('H', 'D', 'T') && spec_from_code('H', 'D', 'T') == Some(t),
            SentenceType::HMR => spec_code(t) == ('H', 'M', 'R') && spec_from_code('H', 'M', 'R') == Some(t),
            SentenceType::HMS => spec_code(t) == ('H', 'M', 'S') && spec_from_code('H', 'M', 'S') == Some(t),
            SentenceType::HSC => spec_code(t) == ('H', 'S', 'C') && spec_from_code('H', 'S', 'C') == Some(t),
            SentenceType::HTC => spec_code(t) == ('H', 'T', 'C') && spec_from_code('H', 'T', 'C') == Some(t),
            SentenceType::HTD => spec_code(t) == ('H', 'T', 'D') && spec_from_code('H', 'T', 'D') == Some(t),
            SentenceType::LCD => spec_code(t) == ('L', 'C', 'D') && spec_from_code('L', 'C', 'D') == Some(t),
            SentenceType::LRF => spec_code(t) == ('L', 'R', 'F') && spec_from_code('L', 'R', 'F') == Some(t),
            SentenceType::LRI => spec_code(t) == ('L', 'R', 'I') && spec_from_code('L', 'R', 'I') == Some(t),
            SentenceType::LR1 => spec_code(t) == ('L', 'R', '1') && spec_from_code('L', 'R', '1') == Some(t),
            SentenceType::LR2 => spec_code(t) == ('L', 'R', '2') && spec_from_code('L', 'R', '2') == Some(t),
            SentenceType::LR3 => spec_code(t) == ('L', 'R', '3') && spec_from_code('L', 'R', '3') == Some(t),
            SentenceType::MDA => spec_code(t) == ('M', 'D', 'A') && spec_from_code('M', 'D', 'A') == Some(t),
            SentenceType::MLA => spec_code(t) == ('M', 'L', 'A') && spec_from_code('M', 'L', 'A') == Some(t),
            SentenceType::MSK => spec_code(t) == ('M', 'S', 'K') && spec_from_code('M', 'S', 'K') == Some(t),
            SentenceType::MSS => spec_code(t) == ('M', 'S', 'S') && spec_from_code('M', 'S', 'S') == Some(t),
            SentenceType::MTW => spec_code(t) == ('M', 'T', 'W') && spec_from_code('M', 'T', 'W') == Some(t),
            SentenceType::MWD => spec_code(t) == ('M', 'W', 'D') && spec_from_code('M', 'W', 'D') == Some(t),
            SentenceType::MWV => spec_code(t) == ('M', 'W', 'V') && spec_from_code('M', 'W', 'V') == Some(t),
            SentenceType::NRM => spec_code(t) == ('N', 'R', 'M') && spec_from_code('N', 'R', 'M') == Some(t),
            SentenceType::NRX => spec_code(t) == ('N', 'R', 'X') && spec_from_code('N', 'R', 'X') == Some(t),
            SentenceType::OLN => spec_code(t) == ('O', 'L', 'N') && spec_from_code('O', 'L', 'N') == Some(t),
            SentenceType::OSD => spec_code(t) == ('O', 'S', 'D') && spec_from_code('O', 'S', 'D') == Some(t),
            SentenceType::POS => spec_code(t) == ('P', 'O', 'S') && spec_from_code('P', 'O', 'S') == Some(t),
            SentenceType::PRC => spec_code(t) == ('P', 'R', 'C') && spec_from_code('P', 'R', 'C') == Some(t),
            SentenceType::RLM => spec_code(t) == ('R', 'L', 'M') && spec_from_code('R', 'L', 'M') == Some(t),
            SentenceType::RMA => spec_code(t) == ('R', 'M', 'A') && spec_from_code('R', 'M', 'A') == Some(t),
            SentenceType::RMB => spec_code(t) == ('R', 'M', 'B') && spec_from_code('R', 'M', 'B') == Some(t),
            SentenceType::RMC => spec_code(t) == ('R', 'M', 'C') && spec_from_code('R', 'M', 'C') == Some(t),
            SentenceType::RMZ => spec_code(t) == ('R', 'M', 'Z') && spec_from_code('R', 'M', 'Z') == Some(t),
            SentenceType::ROO => spec_code(t) == ('R', 'O', 'O') && spec_from_code('R', 'O', 'O') == Some(t),
            SentenceType::ROR => spec_code(t) == ('R', 'O', 'R') && spec_from_code('R', 'O', 'R') == Some(t),
            SentenceType::ROT => spec_code(t) == ('R', 'O', 'T') && spec_from_code('R', 'O', 'T') == Some(t),
            SentenceType::RPM => spec_code(t) == ('R', 'P', 'M') && spec_from_code('R', 'P', 'M') == Some(t),
            SentenceType::RSA => spec_code(t) == ('R', 'S', 'A') && spec_from_code('R', 'S', 'A') == Some(t),
            SentenceType::RSD => spec_code(t) == ('R', 'S', 'D') && spec_from_code('R', 'S', 'D') == Some(t),
            SentenceType::RTE => spec_code(t) == ('R', 'T', 'E') && spec_from_code('R', 'T', 'E') == Some(t),
            SentenceType::SFI => spec_code(t) == ('S', 'F', 'I') && spec_from_code('S', 'F', 'I') == Some(t),
            SentenceType::SSD => spec_code(t) == ('S', 'S', 'D') && spec_from_code('S', 'S', 'D') == Some(t),
            SentenceType::STN => spec_code(t) == ('S', 'T', 'N') && spec_from_code('S', 'T', 'N') == Some(t),
            SentenceType::TDS => spec_code(t) == ('T', 'D', 'S') && spec_from_code('T', 'D', 'S') == Some(t),
            SentenceType::TFI => spec_code(t) == ('T', 'F', 'I') && spec_from_code('T', 'F', 'I') == Some(t),
            SentenceType::TLB => spec_code(t) == ('T', 'L', 'B') && spec_from_code('T', 'L', 'B') == Some(t),
            SentenceType::TLL => spec_code(t) == ('T', 'L', 'L') && spec_from_code('T', 'L', 'L') == Some(t),
            SentenceType::TPC => spec_code(t) == ('T', 'P', 'C') && spec_from_code('T', 'P', 'C') == Some(t),
            SentenceType::TPR => spec_code(t) == ('T', 'P', 'R') && spec_from_code('T', 'P', 'R') == Some(t),
            SentenceType::TPT => spec_code(t) == ('T', 'P', 'T') && spec_from_code('T', 'P', 'T') == Some(t),
            SentenceType::TRC => spec_code(t) == ('T', 'R', 'C') && spec_from_code('T', 'R', 'C') == Some(t),
            SentenceType::TRD => spec_code(t) == ('T', 'R', 'D') && spec_from_code('T', 'R', 'D') == Some(t),
            SentenceType::TTD => spec_code(t) == ('T', 'T', 'D') && spec_from_code('T', 'T', 'D') == Some(t),
            SentenceType::TTM => spec_code(t) == ('T', 'T', 'M') && spec_from_code('T', 'T', 'M') == Some(t),
            SentenceType::TUT => spec_code(t) == ('T', 'U', 'T') && spec_from_code('T', 'U', 'T') == Some(t),
            SentenceType::TXT => spec_code(t) == ('T', 'X', 'T') && spec_from_code('T', 'X', 'T') == Some(t),
            SentenceType::VBW => spec_code(t) == ('V', 'B', 'W') && spec_from_code('V', 'B', 'W') == Some(t),
            SentenceType::VDM => spec_code(t) == ('V', 'D', 'M') && spec_from_code('V', 'D', 'M') == Some(t),
            SentenceType::VDO => spec_code(t) == ('V', 'D', 'O') && spec_from_code('V', 'D', 'O') == Some(t),
            SentenceType::VDR => spec_code(t) == ('V', 'D', 'R') && spec_from_code('V', 'D', 'R') == Some(t),
            SentenceType::VHW => spec_code(t) == ('V', 'H', 'W') && spec_from_code('V', 'H', 'W') == Some(t),
            SentenceType::VLW => spec_code(t) == ('V', 'L', 'W') && spec_from_code('V', 'L', 'W') == Some(t),
            SentenceType::VPW => spec_code(t) == ('V', 'P', 'W') && spec_from_code('V', 'P', 'W') == Some(t),
            SentenceType::VSD => spec_code(t) == ('V', 'S', 'D') && spec_from_code('V', 'S', 'D') == Some(t),
            SentenceType::VTG => spec_code(t) == ('V', 'T', 'G') && spec_from_code('V', 'T', 'G') == Some(t),
            SentenceType::VWR => spec_code(t) == ('V', 'W', 'R') && spec_from_code('V', 'W', 'R') == Some(t),
            SentenceType::VWT => spec_code(t) == ('V', 'W', 'T') && spec_from_code('V', 'W', 'T') == Some(t),
            SentenceType::WAT => spec_code(t) == ('W', 'A', 'T') && spec_from_code('W', 'A', 'T') == Some(t),
            SentenceType::WCV => spec_code(t) == ('W', 'C', 'V') && spec_from_code('W', 'C', 'V') == Some(t),
            SentenceType::WNC => spec_code(t) == ('W', 'N', 'C') && spec_from_code('W', 'N', 'C') == Some(t),
            SentenceType::WNR => spec_code(t) == ('W', 'N', 'R') && spec_from_code('W', 'N', 'R') == Some(t),
            SentenceType::WPL => spec_code(t) == ('W', 'P', 'L') && spec_from_code('W', 'P', 'L') == Some(t),
            SentenceType::XDC => spec_code(t) == ('X', 'D', 'C') && spec_from_code('X', 'D', 'C') == Some(t),
            SentenceType::XDR => spec_code(t) == ('X', 'D', 'R') && spec_from_code('X', 'D', 'R') == Some(t),
            SentenceType::XTE => spec_code(t) == ('X', 'T', 'E') && spec_from_code('X', 'T', 'E') == Some(t),
            SentenceType::XTR => spec_code(t) == ('X', 'T', 'R') && spec_from_code('X', 'T', 'R') == Some(t),
            SentenceType::ZDA => spec_code(t) == ('Z', 'D', 'A') && spec_from_code('Z', 'D', 'A') == Some(t),
            SentenceType::ZDL => spec_code(t) == ('Z', 'D', 'L') && spec_from_code('Z', 'D', 'L') == Some(t),
            SentenceType::ZFO => spec_code(t) == ('Z', 'F', 'O') && spec_from_code('Z', 'F', 'O') == Some(t),
            SentenceType::ZTG => spec_code(t) == ('Z', 'T', 'G') && spec_from_code('Z', 'T', 'G') == Some(t),
        },
{
}

} // verus!
