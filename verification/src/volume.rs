//! What Windows is told of the volume as a whole.

use vstd::prelude::*;

use crate::attr::ALLOCATION_UNIT;
use crate::context::WinFsContext;
use crate::error::FspError;
use crate::time::{filetime_of, system_time_to_filetime, SystemTime};

verus! {

/// The size that the volume is said to have.
pub const VOLUME_TOTAL_SIZE: u64 = 0x100_0000_0000;

/// The space that the volume is said to have left.
pub const VOLUME_FREE_SIZE: u64 = 0x80_0000_0000;

/// The most UTF-16 units that the name of a file or directory may have.
pub const MAX_COMPONENT_LENGTH: u16 = 255;

/// Size and label of a volume.
#[derive(Debug, PartialEq, Eq)]
pub struct VolumeInfo {
    pub total_size: u64,
    pub free_size: u64,
    pub volume_label: String,
}

/// How a volume is set up when it is mounted.
#[derive(Debug, PartialEq, Eq)]
pub struct VolumeParams {
    pub sector_size: u16,
    pub sectors_per_allocation_unit: u16,
    pub max_component_length: u16,
    pub volume_creation_time: u64,
    pub volume_serial_number: u32,
    pub file_info_timeout: u32,
    pub case_sensitive_search: bool,
    pub case_preserved_names: bool,
    pub unicode_on_disk: bool,
    pub persistent_acls: bool,
    pub read_only_volume: bool,
    pub filesystem_name: String,
}

impl WinFsContext {
    /// Tells the size and the label of the volume. The size is a fixed one: how much the encrypted
    /// file system can hold is not known.
    pub fn get_volume_info(&self, out_volume_info: &mut VolumeInfo) -> (outcome: Result<
        (),
        FspError,
    >)
        ensures
            outcome == Ok::<(), FspError>(()),
            final(out_volume_info).total_size == VOLUME_TOTAL_SIZE,
            final(out_volume_info).free_size == VOLUME_FREE_SIZE,
            final(out_volume_info).volume_label@ == "rencfs"@,
    {
        out_volume_info.total_size = 1u64 << 40;
        out_volume_info.free_size = 1u64 << 39;
        assert(1u64 << 40 == 0x100_0000_0000u64) by (bit_vector);
        assert(1u64 << 39 == 0x80_0000_0000u64) by (bit_vector);
        out_volume_info.volume_label = "rencfs".to_string();
        Ok(())
    }

    /// Asks for another label. The volume keeps its own, whatever is asked for.
    pub fn set_volume_label(&self, volume_label: &[u16], volume_info: &mut VolumeInfo) -> (outcome:
        Result<(), FspError>)
        ensures
            outcome == Ok::<(), FspError>(()),
            final(volume_info).total_size == old(volume_info).total_size,
            final(volume_info).free_size == old(volume_info).free_size,
            final(volume_info).volume_label@ == "rencfs"@,
    {
        volume_info.volume_label = "rencfs".to_string();
        Ok(())
    }

    /// How the volume is set up when it is mounted.
    pub fn volume_params(&self, now: SystemTime) -> (params: VolumeParams)
        requires
            now.has_filetime(),
        ensures
            params.sector_size == 512,
            params.sectors_per_allocation_unit == 8,
            params.max_component_length == MAX_COMPONENT_LENGTH,
            params.volume_creation_time == filetime_of(now@),
            params.volume_serial_number == 0x5245_4E43,
            params.file_info_timeout == 1000,
            params.case_sensitive_search,
            params.case_preserved_names,
            params.unicode_on_disk,
            !params.persistent_acls,
            params.read_only_volume == self.read_only,
            params.filesystem_name@ == "rencfs"@,
            params.sector_size * params.sectors_per_allocation_unit == ALLOCATION_UNIT,
    {
        VolumeParams {
            sector_size: 512,
            sectors_per_allocation_unit: 8,
            max_component_length: MAX_COMPONENT_LENGTH,
            volume_creation_time: system_time_to_filetime(now),
            volume_serial_number: 0x5245_4E43,
            file_info_timeout: 1000,
            case_sensitive_search: true,
            case_preserved_names: true,
            unicode_on_disk: true,
            persistent_acls: false,
            read_only_volume: self.read_only,
            filesystem_name: "rencfs".to_string(),
        }
    }
}

/// The volume is said to hold 2^40 bytes, half of which are free, and to allow names of 255 units.
pub proof fn volume_has_this_size()
    ensures
        VOLUME_TOTAL_SIZE == 1024 * 1024 * 1024 * 1024,
        VOLUME_FREE_SIZE * 2 == VOLUME_TOTAL_SIZE,
        MAX_COMPONENT_LENGTH == 255,
        ALLOCATION_UNIT == 4096,
{
}

} // verus!
