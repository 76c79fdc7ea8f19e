use vstd::prelude::*;

verus! {

/// A storage device's kind, with what it can do.
#[derive(Debug, Clone, Copy, PartialEq, Eq, Structural)]
pub enum StorageType {
    /// rotating magnetic disk
    Hdd(StorageCapabilities),
    /// solid state drive
    Ssd(StorageCapabilities),
    /// removable flash media (USB sticks, SD cards)
    Flash(StorageCapabilities),
}

/// Independent capability flags of a storage device.
#[derive(Debug, Clone, Copy, PartialEq, Eq, Structural)]
pub struct StorageCapabilities {
    /// the device accepts TRIM hints
    pub supports_trim: bool,
    /// the device implements ATA secure erase
    pub supports_secure_erase: bool,
    /// the device implements the NVMe sanitize command
    pub supports_nvme_sanitize: bool,
    /// the device remaps blocks to spread wear
    pub has_wear_leveling: bool,
}

/// What detection learned about the device holding a path.
#[derive(Debug, Clone, Copy)]
pub struct StorageInfo {
    /// kind and capabilities of the device
    pub device_type: StorageType,
    /// logical block size in bytes
    pub block_size: usize,
    /// capacity in bytes
    pub total_size: u64,
}

/// What Linux reports of a block device, as a kind with capabilities: a
/// rotational device is a disk with secure erase and nothing else; any other is
/// a solid state drive with TRIM, secure erase and wear leveling, and NVMe
/// sanitize when it is an NVMe device.
pub open spec fn linux_storage(rotational: u8, is_nvme: bool) -> StorageType {
    if rotational == 1 {
        StorageType::Hdd(
            StorageCapabilities {
                supports_trim: false,
                supports_secure_erase: true,
                supports_nvme_sanitize: false,
                has_wear_leveling: false,
            },
        )
    } else {
        StorageType::Ssd(
            StorageCapabilities {
                supports_trim: true,
                supports_secure_erase: true,
                supports_nvme_sanitize: is_nvme,
                has_wear_leveling: true,
            },
        )
    }
}

impl StorageType {
    /// The kind and capabilities of a Linux block device, from its
    /// `queue/rotational` flag and whether its name is an NVMe one.
    pub fn from_linux_attributes(rotational: u8, is_nvme: bool) -> (r: StorageType)
        ensures
            r == linux_storage(rotational, is_nvme),
    {
        if rotational == 1 {
            StorageType::Hdd(
                StorageCapabilities {
                    supports_trim: false,
                    supports_secure_erase: true,
                    supports_nvme_sanitize: false,
                    has_wear_leveling: false,
                },
            )
        } else if is_nvme {
            StorageType::Ssd(
                StorageCapabilities {
                    supports_trim: true,
                    supports_secure_erase: true,
                    supports_nvme_sanitize: true,
                    has_wear_leveling: true,
                },
            )
        } else {
            StorageType::Ssd(
                StorageCapabilities {
                    supports_trim: true,
                    supports_secure_erase: true,
                    supports_nvme_sanitize: false,
                    has_wear_leveling: true,
                },
            )
        }
    }

    /// The capability flags, whatever the kind.
    pub open spec fn caps(self) -> StorageCapabilities {
        match self {
            StorageType::Hdd(c) => c,
            StorageType::Ssd(c) => c,
            StorageType::Flash(c) => c,
        }
    }

    /// Disks (rotating or solid state) that flag it; never flash media.
    pub open spec fn secure_erase_supported(self) -> bool {
        !(self is Flash) && self.caps().supports_secure_erase
    }

    /// Solid state and flash devices that flag wear leveling.
    pub open spec fn wear_leveling_handled(self) -> bool {
        !(self is Hdd) && self.caps().has_wear_leveling
    }

    /// A TRIM hint is sent before overwriting: wear leveling must be handled
    /// and the device accepts TRIM.
    pub open spec fn trim_wanted(self) -> bool {
        self.wear_leveling_handled() && self.caps().supports_trim
    }

    /// Whether a hardware secure erase may be attempted on the device.
    pub fn supports_secure_erase(&self) -> (r: bool)
        ensures
            r == self.secure_erase_supported(),
    {
        match self {
            StorageType::Ssd(caps) | StorageType::Hdd(caps) => caps.supports_secure_erase,
            StorageType::Flash(_) => false,
        }
    }

    /// Whether overwriting needs wear-leveling handling first.
    pub fn requires_wear_leveling_handling(&self) -> (r: bool)
        ensures
            r == self.wear_leveling_handled(),
    {
        match self {
            StorageType::Flash(caps) | StorageType::Ssd(caps) => caps.has_wear_leveling,
            StorageType::Hdd(_) => false,
        }
    }

    /// Whether a TRIM hint is sent before overwriting.
    pub fn wants_trim(&self) -> (r: bool)
        ensures
            r == self.trim_wanted(),
    {
        match self {
            StorageType::Flash(caps) | StorageType::Ssd(caps) => caps.has_wear_leveling
                && caps.supports_trim,
            StorageType::Hdd(_) => false,
        }
    }
}

} // verus!
