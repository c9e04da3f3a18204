//! The data of each supported sentence type and its parser.

pub mod dbs;
pub mod faa_mode;
pub mod hdm;
pub mod rot;
pub mod hsc;
pub mod vdr;
pub mod vpw;
pub mod mwd;
pub mod rsa;
pub mod rpm;
pub mod hdg;
pub mod xte;
pub mod vwr;
pub mod vwt;
pub mod xdr;
pub mod dbt;
pub mod mda;
pub mod gll;
pub mod gbs;
pub mod gst;
pub mod gns;
pub mod rmb;
pub mod apb;
pub mod ttm;
pub mod dsc;
pub mod ztg;
pub mod stalk;
pub mod vdm;
pub mod vlw;
pub mod gsa;

pub use apb::{ApbData, parse_apb};
pub use dbs::{DbsData, parse_dbs};
pub use dbt::{DbtData, parse_dbt};
pub use dsc::{DscData, parse_dsc};
pub use faa_mode::{FaaMode, FaaModes};
pub use gbs::{GbsData, parse_gbs};
pub use gll::{GllData, parse_gll};
pub use gns::{GnsData, NavigationStatus, parse_gns};
pub use gsa::{GsaData, GsaMode1, GsaMode2, gsa_prn_fields_parse, parse_gsa};
pub use gst::{GstData, parse_gst};
pub use hdg::{HdgData, parse_hdg};
pub use hdm::{HdmData, parse_hdm};
pub use hsc::{HscData, parse_hsc};
pub use mda::{MdaData, parse_mda};
pub use mwd::{MwdData, parse_mwd};
pub use rmb::{RmbData, parse_rmb};
pub use rot::{RotData, parse_rot};
pub use rpm::{RpmData, RpmSource, parse_rpm};
pub use rsa::{RsaData, parse_rsa};
pub use stalk::{StalkData, parse_stalk};
pub use ttm::{TtmAngle, TtmData, TtmDistanceUnit, TtmReference, TtmStatus, TtmTypeOfAcquisition, parse_ttm};
pub use vdm::{VdmData, parse_vdm};
pub use vdr::{VdrData, parse_vdr};
pub use vlw::{VlwData, parse_vlw};
pub use vpw::{VpwData, parse_vpw};
pub use vwr::{VwrData, parse_vwr};
pub use vwt::{VwtData, parse_vwt};
pub use xdr::{XdrData, XdrMeasurement, parse_xdr};
pub use xte::{XteData, parse_xte};
pub use ztg::{ZtgData, parse_ztg};
