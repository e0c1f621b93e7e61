//! Flattening aggregated entries into rows for tabular export, and the
//! errors the export surface reports. Writing the rows to a file is the
//! caller's business; the flattening itself is pure.

use crate::layer_2_infos::PacketInfos;
use crate::text::{clone_opt, view_opt};
use vstd::prelude::*;

verus! {

/// What can go wrong while exporting the summary to a CSV or spreadsheet
/// file, each with an explanatory message.
#[derive(Debug, Clone)]
pub enum MyError {
    /// An input/output failure.
    IoError(String),
    /// A failure while writing CSV.
    CsvError(String),
    /// A text conversion failure.
    Utf8Error(String),
    /// A failure while writing a spreadsheet.
    XlsxError(String),
}

/// The rendering of an export error: a prefix naming the kind, then the
/// explanatory message.
pub open spec fn spec_error_message(e: MyError) -> Seq<char> {
    match e {
        MyError::IoError(s) => "Erreur d'E/S : "@ + s@,
        MyError::CsvError(s) => "Erreur CSV : "@ + s@,
        MyError::Utf8Error(s) => "Erreur de conversion UTF-8 : "@ + s@,
        MyError::XlsxError(s) => "Erreur Excel : "@ + s@,
    }
}

impl MyError {
    /// Renders the error for display.
    pub fn message(&self) -> (r: String)
        ensures
            r@ == spec_error_message(*self),
    {
        match self {
            MyError::IoError(s) => {
                let mut m = String::from_str("Erreur d'E/S : ");
                m.append(s.as_str());
                m
            },
            MyError::CsvError(s) => {
                let mut m = String::from_str("Erreur CSV : ");
                m.append(s.as_str());
                m
            },
            MyError::Utf8Error(s) => {
                let mut m = String::from_str("Erreur de conversion UTF-8 : ");
                m.append(s.as_str());
                m
            },
            MyError::XlsxError(s) => {
                let mut m = String::from_str("Erreur Excel : ");
                m.append(s.as_str());
                m
            },
        }
    }
}

/// One row of the tabular export: a flattened canonical record and the
/// entry's counters.
#[derive(Debug, Clone)]
pub struct PacketInfosCsv {
    pub mac_address_source: String,
    pub mac_address_destination: String,
    pub interface: String,
    pub l_3_protocol: String,
    pub ip_source: Option<String>,
    pub ip_destination: Option<String>,
    pub l_4_protocol: Option<String>,
    pub port_source: Option<String>,
    pub port_destination: Option<String>,
    pub packet_size: usize,
    pub count: u32,
}

impl PacketInfosCsv {
    /// Flattens one record and its hit count into a row: every nested field
    /// is carried over unchanged.
    pub fn from_packet_infos(packet: &PacketInfos, count: u32) -> (r: Self)
        ensures
            r.mac_address_source@ == packet@.mac_address_source,
            r.mac_address_destination@ == packet@.mac_address_destination,
            r.interface@ == packet@.interface,
            r.l_3_protocol@ == packet@.l_3_protocol,
            view_opt(r.ip_source) == packet@.layer_3_infos.ip_source,
            view_opt(r.ip_destination) == packet@.layer_3_infos.ip_destination,
            view_opt(r.l_4_protocol) == packet@.layer_3_infos.l_4_protocol,
            view_opt(r.port_source) == packet@.layer_3_infos.layer_4_infos.port_source,
            view_opt(r.port_destination) == packet@.layer_3_infos.layer_4_infos.port_destination,
            r.packet_size == packet@.packet_size,
            r.count == count,
    {
        PacketInfosCsv {
            mac_address_source: packet.mac_address_source.clone(),
            mac_address_destination: packet.mac_address_destination.clone(),
            interface: packet.interface.clone(),
            l_3_protocol: packet.l_3_protocol.clone(),
            ip_source: clone_opt(&packet.layer_3_infos.ip_source),
            ip_destination: clone_opt(&packet.layer_3_infos.ip_destination),
            l_4_protocol: clone_opt(&packet.layer_3_infos.l_4_protocol),
            port_source: clone_opt(&packet.layer_3_infos.layer_4_infos.port_source),
            port_destination: clone_opt(&packet.layer_3_infos.layer_4_infos.port_destination),
            packet_size: packet.packet_size,
            count: count,
        }
    }
}

} // verus!
