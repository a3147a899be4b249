//! The expedited SDO server: uploads read an entry of the object dictionary,
//! downloads write one, and both answer with one frame.

use vstd::prelude::*;
use crate::eds::{DataType, DataValue, EDSData, Var};
use crate::frame::{Frame, COB_SDO_RESPONSE, cob_with_node};
use crate::od::{Entries, value_at, after_write, same_layout};

verus! {

/// Server command specifier of an SDO response (bits 7..5 of the first byte).
#[derive(Debug, Clone, Copy, PartialEq, Eq, Structural)]
pub enum ServerCommand {
    /// The server is uploading a segment.
    UploadSegmentResponse,
    /// The server has downloaded the segment.
    DownloadSegmentResponse,
    /// The server accepts the upload request.
    InitiateUploadResponse,
    /// The server accepts the download request.
    InitiateDownloadResponse,
    /// The server is aborting the transfer.
    AbortTransfer,
    /// Unknown server command.
    Unknown,
}

impl ServerCommand {
    /// The command that the specifier `value` stands for.
    pub open spec fn of(value: u8) -> ServerCommand {
        match value {
            0 => ServerCommand::UploadSegmentResponse,
            1 => ServerCommand::DownloadSegmentResponse,
            2 => ServerCommand::InitiateUploadResponse,
            3 => ServerCommand::InitiateDownloadResponse,
            4 => ServerCommand::AbortTransfer,
            _ => ServerCommand::Unknown,
        }
    }

    /// The specifier of this command.
    pub open spec fn code(self) -> u8 {
        match self {
            ServerCommand::UploadSegmentResponse => 0,
            ServerCommand::DownloadSegmentResponse => 1,
            ServerCommand::InitiateUploadResponse => 2,
            ServerCommand::InitiateDownloadResponse => 3,
            ServerCommand::AbortTransfer => 4,
            ServerCommand::Unknown => 5,
        }
    }

    /// The command that the specifier `value` stands for.
    pub fn server_command(value: u8) -> (command: ServerCommand)
        ensures
            command == ServerCommand::of(value),
    {
        match value {
            0 => ServerCommand::UploadSegmentResponse,
            1 => ServerCommand::DownloadSegmentResponse,
            2 => ServerCommand::InitiateUploadResponse,
            3 => ServerCommand::InitiateDownloadResponse,
            4 => ServerCommand::AbortTransfer,
            _ => ServerCommand::Unknown,
        }
    }

    /// The specifier of this command.
    pub fn specifier(&self) -> (code: u8)
        ensures
            code == self.code(),
    {
        match self {
            ServerCommand::UploadSegmentResponse => 0,
            ServerCommand::DownloadSegmentResponse => 1,
            ServerCommand::InitiateUploadResponse => 2,
            ServerCommand::InitiateDownloadResponse => 3,
            ServerCommand::AbortTransfer => 4,
            ServerCommand::Unknown => 5,
        }
    }
}

/// Client command specifier of an SDO request (bits 7..5 of the first byte).
#[derive(Debug, Clone, Copy, PartialEq, Eq, Structural)]
pub enum ClientCommand {
    /// Download a segment to the server.
    SegmentDownload,
    /// Initiate a download to the server.
    InitiateDownload,
    /// Initiate an upload from the server.
    InitiateUpload,
    /// Request the server to upload a segment.
    SegmentUpload,
    /// Tell the server we are aborting the transfer.
    AbortTransfer,
    /// Unknown client command.
    Unknown,
}

impl ClientCommand {
    /// The command that the specifier `value` stands for.
    pub open spec fn of(value: u8) -> ClientCommand {
        match value {
            0 => ClientCommand::SegmentDownload,
            1 => ClientCommand::InitiateDownload,
            2 => ClientCommand::InitiateUpload,
            3 => ClientCommand::SegmentUpload,
            4 => ClientCommand::AbortTransfer,
            _ => ClientCommand::Unknown,
        }
    }

    /// The command that the specifier `value` stands for.
    pub fn client_command(value: u8) -> (command: ClientCommand)
        ensures
            command == ClientCommand::of(value),
    {
        match value {
            0 => ClientCommand::SegmentDownload,
            1 => ClientCommand::InitiateDownload,
            2 => ClientCommand::InitiateUpload,
            3 => ClientCommand::SegmentUpload,
            4 => ClientCommand::AbortTransfer,
            _ => ClientCommand::Unknown,
        }
    }
}

/// Why a request got no response. None of them changes the dictionary.
#[derive(Debug, Clone, Copy, PartialEq, Eq, Structural)]
pub enum SdoError {
    /// Protocol error: the payload is not eight bytes long.
    Length,
    /// Protocol error: the command is neither an expedited upload nor a download.
    UnknownCommand(u8),
    /// Type mismatch: the dictionary has no such entry.
    NotFound,
    /// Type mismatch: the entry's type has no wire form.
    UnsupportedType,
}

/// The length of an SDO payload.
pub const SDO_LENGTH: usize = 8;

/// The client command specifier in the first byte of a request.
pub open spec fn specifier_of(header: u8) -> u8 {
    header / 32
}

/// The index that a request names: bytes 1 and 2, least significant first.
pub open spec fn index_of(data: Seq<u8>) -> u16 {
    (data[1] as int + 256 * data[2] as int) as u16
}

/// The sub-index that a request names: byte 3.
pub open spec fn sub_index_of(data: Seq<u8>) -> u8 {
    data[3]
}

/// The first byte of the response to an upload of a value of `width` bytes:
/// scs = 2, n = 4 - width, e = 1, s = 1.
pub open spec fn upload_header(width: nat) -> u8 {
    (0x43 + 4 * (4 - width)) as u8
}

/// The response to an upload of `value` from (`index`, `sub_index`).
pub open spec fn upload_response(index: u16, sub_index: u8, value: DataValue) -> Seq<u8> {
    seq![upload_header(value.tag().width()), (index % 256) as u8, (index / 256) as u8, sub_index]
        + value.to_wire() + Seq::new((4 - value.tag().width()) as nat, |i: int| 0u8)
}

/// The response to a download to (`index`, `sub_index`): scs = 3 and no payload.
pub open spec fn download_response(index: u16, sub_index: u8) -> Seq<u8> {
    seq![0x60u8, (index % 256) as u8, (index / 256) as u8, sub_index, 0u8, 0u8, 0u8, 0u8]
}

/// What an upload request does: the response for an entry that has a wire form.
pub open spec fn upload_outcome(entries: Entries, data: Seq<u8>) -> Result<Seq<u8>, SdoError> {
    match value_at(entries, index_of(data), sub_index_of(data)) {
        None => Err(SdoError::NotFound),
        Some(value) => if value.tag().on_wire() {
            Ok(upload_response(index_of(data), sub_index_of(data), value))
        } else {
            Err(SdoError::UnsupportedType)
        },
    }
}

/// The value that a download request carries for an entry of type `tag`: bytes
/// 4 to 7 read by the width of the tag.
pub open spec fn download_value(tag: DataType, data: Seq<u8>) -> Option<DataValue> {
    DataValue::from_wire(tag, data.skip(4))
}

/// What a download request does: the dictionary with the value written and the
/// response, for an entry that has a wire form.
pub open spec fn download_outcome(entries: Entries, data: Seq<u8>) -> Result<
    (Entries, Seq<u8>),
    SdoError,
> {
    match value_at(entries, index_of(data), sub_index_of(data)) {
        None => Err(SdoError::NotFound),
        Some(stored) => match download_value(stored.tag(), data) {
            Some(value) => Ok(
                (
                    after_write(entries, index_of(data), sub_index_of(data), value),
                    download_response(index_of(data), sub_index_of(data)),
                ),
            ),
            None => Err(SdoError::UnsupportedType),
        },
    }
}

/// What a request does to a dictionary: the dictionary after it and the bytes
/// of the response, or why there is no response.
pub open spec fn sdo_outcome(entries: Entries, data: Seq<u8>) -> Result<
    (Entries, Seq<u8>),
    SdoError,
> {
    if data.len() != SDO_LENGTH {
        Err(SdoError::Length)
    } else {
        match ClientCommand::of(specifier_of(data[0])) {
            ClientCommand::InitiateUpload => match upload_outcome(entries, data) {
                Ok(response) => Ok((entries, response)),
                Err(e) => Err(e),
            },
            ClientCommand::InitiateDownload => download_outcome(entries, data),
            _ => Err(SdoError::UnknownCommand(specifier_of(data[0]))),
        }
    }
}

/// Every upload response says in its first byte: server command 2 in bits 7..5,
/// the number of unused bytes in bits 3..2, expedited, size indicated; then it
/// echoes index and sub-index, holds the value, and is eight bytes long.
pub proof fn lemma_upload_response(index: u16, sub_index: u8, value: DataValue)
    requires
        value.tag().on_wire(),
    ensures
        ({
            let response = upload_response(index, sub_index, value);
            let width = value.tag().width();
            &&& response.len() == 8
            &&& response[0] >> 5 == 2
            &&& (response[0] >> 2) & 3 == 4 - width
            &&& (response[0] >> 1) & 1 == 1
            &&& response[0] & 1 == 1
            &&& response[1] as int + 256 * response[2] as int == index
            &&& response[3] == sub_index
            &&& response.subrange(4, 4 + width as int) == value.to_wire()
            &&& forall|i: int| 4 + width <= i < 8 ==> response[i] == 0
        }),
{
    let response = upload_response(index, sub_index, value);
    let width = value.tag().width();
    lemma_wire_len(value);
    assert(0x4Fu8 >> 5 == 2 && (0x4Fu8 >> 2) & 3 == 3 && (0x4Fu8 >> 1) & 1 == 1 && 0x4Fu8 & 1 == 1)
        by (bit_vector);
    assert(0x4Bu8 >> 5 == 2 && (0x4Bu8 >> 2) & 3 == 2 && (0x4Bu8 >> 1) & 1 == 1 && 0x4Bu8 & 1 == 1)
        by (bit_vector);
    assert(0x43u8 >> 5 == 2 && (0x43u8 >> 2) & 3 == 0 && (0x43u8 >> 1) & 1 == 1 && 0x43u8 & 1 == 1)
        by (bit_vector);
    assert(response.subrange(4, 4 + width as int) =~= value.to_wire());
}

/// A value with a wire form takes as many bytes as its type is wide.
pub proof fn lemma_wire_len(value: DataValue)
    ensures
        value.to_wire().len() == value.tag().width(),
{
    reveal_with_fuel(crate::codec::le_bytes, 5);
}

/// The index that the request `data` names.
pub fn get_index(data: &[u8]) -> (index: u16)
    requires
        data@.len() >= 3,
    ensures
        index == index_of(data@),
{
    data[1] as u16 + data[2] as u16 * 256
}

/// The sub-index that the request `data` names.
pub fn get_sub_index(data: &[u8]) -> (sub_index: u8)
    requires
        data@.len() >= 4,
    ensures
        sub_index == sub_index_of(data@),
{
    data[3]
}

/// The entry (`index`, `sub_index`) of a node's dictionary.
pub fn get_var(index: u16, sub_index: u8, eds_data: &EDSData) -> (entry: Option<&Var>)
    ensures
        match entry {
            Some(var) => eds_data.od@.contains_key((index, sub_index)) && var@ == eds_data.od@[(
                index,
                sub_index,
            )],
            None => !eds_data.od@.contains_key((index, sub_index)),
        },
{
    eds_data.od.get(index, sub_index)
}

/// Answers an upload request of eight bytes.
pub fn sdo_upload(eds_data: &EDSData, input_data: &[u8]) -> (result: Result<Vec<u8>, SdoError>)
    requires
        input_data@.len() == SDO_LENGTH,
    ensures
        match upload_outcome(eds_data.od@, input_data@) {
            Ok(response) => result matches Ok(bytes) && bytes@ == response,
            Err(e) => result == Err::<Vec<u8>, SdoError>(e),
        },
        result matches Ok(bytes) ==> bytes@.len() == SDO_LENGTH,
{
    let index_to_get = get_index(input_data);
    let sub_index_to_get = get_sub_index(input_data);
    let value = match get_var(index_to_get, sub_index_to_get, eds_data) {
        Some(var) => var.value,
        None => {
            return Err(SdoError::NotFound);
        },
    };
    let width = value.data_type().wire_width();
    if width == 0 {
        return Err(SdoError::UnsupportedType);
    }
    let n: u8 = (4 - width) as u8;
    let scs = ServerCommand::InitiateUploadResponse;
    let mut data: Vec<u8> = Vec::new();
    data.push(scs.specifier() * 32 + n * 4 + 2 + 1);
    data.push((index_to_get % 256) as u8);
    data.push((index_to_get / 256) as u8);
    data.push(sub_index_to_get);
    let mut payload = value.wire_bytes();
    data.append(&mut payload);
    let ghost filled = data@;
    let mut i: usize = width;
    while i < 4
        invariant
            width <= i <= 4,
            data@ == filled + Seq::new((i - width) as nat, |j: int| 0u8),
        decreases 4 - i,
    {
        data.push(0);
        i = i + 1;
    }
    Ok(data)
}

/// Answers a download request of eight bytes, writing its value.
pub fn sdo_download(eds_data: &mut EDSData, input_data: &[u8]) -> (result: Result<
    Vec<u8>,
    SdoError,
>)
    requires
        input_data@.len() == SDO_LENGTH,
    ensures
        match download_outcome(old(eds_data).od@, input_data@) {
            Ok((entries, response)) => {
                &&& result matches Ok(bytes)
                &&& bytes@ == response
                &&& final(eds_data).od@ == entries
            },
            Err(e) => result == Err::<Vec<u8>, SdoError>(e) && final(eds_data).od@ == old(eds_data).od@,
        },
        result matches Ok(bytes) ==> bytes@.len() == SDO_LENGTH,
        same_layout(old(eds_data).od@, final(eds_data).od@),
        final(eds_data).file_info == old(eds_data).file_info,
        final(eds_data).device_info == old(eds_data).device_info,
{
    let index_to_set = get_index(input_data);
    let sub_index_to_set = get_sub_index(input_data);
    let tag = match get_var(index_to_set, sub_index_to_set, eds_data) {
        Some(var) => var.value.data_type(),
        None => {
            return Err(SdoError::NotFound);
        },
    };
    let value = match DataValue::read_wire(tag, input_data, 4) {
        Some(value) => value,
        None => {
            return Err(SdoError::UnsupportedType);
        },
    };
    eds_data.od.mutate(index_to_set, sub_index_to_set, value);
    let scs = ServerCommand::InitiateDownloadResponse;
    let mut data: Vec<u8> = Vec::new();
    data.push(scs.specifier() * 32);
    data.push((index_to_set % 256) as u8);
    data.push((index_to_set / 256) as u8);
    data.push(sub_index_to_set);
    data.push(0);
    data.push(0);
    data.push(0);
    data.push(0);
    Ok(data)
}

/// The response frame of the node `node_id` that carries `data`.
pub fn create_sdo_response_frame(node_id: u8, data: Vec<u8>) -> (frame: Frame)
    ensures
        frame.cob_id == cob_with_node(COB_SDO_RESPONSE, node_id),
        frame.data@ == data@,
        frame.cob_id <= 0x7FF,
{
    let cob_id: u16 = COB_SDO_RESPONSE | node_id as u16;
    assert(cob_id <= 0x7FF) by (bit_vector)
        requires
            cob_id == 0x580u16 | node_id as u16,
    ;
    Frame { cob_id, data }
}

/// Serves one SDO request of the node `node_id`: answers an expedited upload
/// from the dictionary, performs an expedited download on it, and refuses
/// everything else without touching the dictionary.
pub fn sdo_response(node_id: u8, eds_data: &mut EDSData, data: &[u8]) -> (result: Result<
    Frame,
    SdoError,
>)
    ensures
        match sdo_outcome(old(eds_data).od@, data@) {
            Ok((entries, response)) => {
                &&& result matches Ok(frame)
                &&& frame.cob_id == cob_with_node(COB_SDO_RESPONSE, node_id)
                &&& frame.data@ == response
                &&& frame.transmittable()
                &&& final(eds_data).od@ == entries
            },
            Err(e) => result == Err::<Frame, SdoError>(e) && final(eds_data).od@ == old(eds_data).od@,
        },
        same_layout(old(eds_data).od@, final(eds_data).od@),
        final(eds_data).file_info == old(eds_data).file_info,
        final(eds_data).device_info == old(eds_data).device_info,
{
    if data.len() != SDO_LENGTH {
        return Err(SdoError::Length);
    }
    let ccs: u8 = data[0] / 32;
    match ClientCommand::client_command(ccs) {
        ClientCommand::InitiateUpload => {
            match sdo_upload(eds_data, data) {
                Ok(response) => Ok(create_sdo_response_frame(node_id, response)),
                Err(e) => Err(e),
            }
        },
        ClientCommand::InitiateDownload => {
            match sdo_download(eds_data, data) {
                Ok(response) => Ok(create_sdo_response_frame(node_id, response)),
                Err(e) => Err(e),
            }
        },
        _ => Err(SdoError::UnknownCommand(ccs)),
    }
}

} // verus!
