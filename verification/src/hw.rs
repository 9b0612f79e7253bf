//! The driver's software state: what is known of the MAC, the PHY, the NVM,
//! the flow control settings and the bus, and the tables of operations.

use vstd::prelude::*;
use crate::consts::{E1000_FLASH_BASE_ADDR, E1000_SHADOW_RAM_WORDS, ICH_FLASH_LINEAR_ADDR_MASK};

verus! {

/// MAC families, oldest first. `Mac_older` stands for every family before
/// ICH8 and `Mac_newer` for every family after Cannon Point.
#[allow(non_camel_case_types)]
#[derive(Clone, Copy, Debug, PartialEq, Eq, Structural)]
pub enum MacType {
    Mac_older,
    Mac_ich8lan,
    Mac_ich9lan,
    Mac_ich10lan,
    Mac_pchlan,
    Mac_pch2lan,
    Mac_pch_lpt,
    Mac_pch_spt,
    Mac_pch_cnp,
    Mac_newer,
}

impl MacType {
    /// The place of the family in the order of release.
    pub open spec fn generation(self) -> int {
        match self {
            MacType::Mac_older => 0,
            MacType::Mac_ich8lan => 1,
            MacType::Mac_ich9lan => 2,
            MacType::Mac_ich10lan => 3,
            MacType::Mac_pchlan => 4,
            MacType::Mac_pch2lan => 5,
            MacType::Mac_pch_lpt => 6,
            MacType::Mac_pch_spt => 7,
            MacType::Mac_pch_cnp => 8,
            MacType::Mac_newer => 9,
        }
    }

    /// Whether the family is `other` or a later one.
    pub open spec fn since(self, other: MacType) -> bool {
        self.generation() >= other.generation()
    }

    fn rank(self) -> (rank: u8)
        ensures
            rank == self.generation(),
    {
        match self {
            MacType::Mac_older => 0,
            MacType::Mac_ich8lan => 1,
            MacType::Mac_ich9lan => 2,
            MacType::Mac_ich10lan => 3,
            MacType::Mac_pchlan => 4,
            MacType::Mac_pch2lan => 5,
            MacType::Mac_pch_lpt => 6,
            MacType::Mac_pch_spt => 7,
            MacType::Mac_pch_cnp => 8,
            MacType::Mac_newer => 9,
        }
    }

    /// Tests whether the family is `other` or a later one.
    pub fn at_least(self, other: MacType) -> (res: bool)
        ensures
            res == self.since(other),
    {
        self.rank() >= other.rank()
    }
}

/// PHY families. `Type_older` stands for every family before the 82578 that
/// has no variant of its own, and `Type_newer` for every family after i217.
#[allow(non_camel_case_types)]
#[derive(Clone, Copy, Debug, PartialEq, Eq, Structural)]
pub enum PhyType {
    Type_unknown,
    Type_older,
    Type_igp_3,
    Type_ife,
    Type_82578,
    Type_82577,
    Type_82579,
    Type_i217,
    Type_newer,
}

impl PhyType {
    /// Whether the family is later than the 82579.
    pub open spec fn after_82579(self) -> bool {
        self == PhyType::Type_i217 || self == PhyType::Type_newer
    }

    /// Tests whether the family is later than the 82579.
    pub fn is_after_82579(self) -> (res: bool)
        ensures
            res == self.after_82579(),
    {
        self == PhyType::Type_i217 || self == PhyType::Type_newer
    }

    /// Whether the PHY is one of those that PCH MACs come with.
    pub open spec fn pch(self) -> bool {
        self == PhyType::Type_82578 || self == PhyType::Type_82579 || self == PhyType::Type_i217
            || self == PhyType::Type_82577
    }

    /// Tests whether the PHY is one of those that PCH MACs come with.
    pub fn is_pch(self) -> (res: bool)
        ensures
            res == self.pch(),
    {
        self == PhyType::Type_82578 || self == PhyType::Type_82579 || self == PhyType::Type_i217
            || self == PhyType::Type_82577
    }
}

#[derive(Clone, Copy, Debug, PartialEq, Eq, Structural)]
pub enum MediaType {
    Unknown,
    Copper,
    Fiber,
    InternalSerdes,
}

#[derive(Clone, Copy, Debug, PartialEq, Eq, Structural)]
pub enum NvmType {
    Unknown,
    FlashSw,
    Other,
}

#[allow(non_camel_case_types)]
#[derive(Clone, Copy, Debug, PartialEq, Eq, Structural)]
pub enum BusWidth {
    Unknown,
    Width_pcie_x1,
    Other,
}

#[derive(Clone, Copy, Debug, PartialEq, Eq, Structural)]
pub enum FcMode {
    NoPause,
    RxPause,
    TxPause,
    Full,
    Default,
}

/// What is known of the ultra low power mode of the PHY.
#[derive(Clone, Copy, Debug, PartialEq, Eq, Structural)]
pub enum UlpState {
    Unknown,
    Off,
    On,
}

/// A driver function that a table of operations can refer to. `Other` stands
/// for one that this crate does not know by name.
#[derive(Clone, Copy, Debug, PartialEq, Eq, Structural)]
pub enum Func {
    // Functions of this crate.
    AcquireNvmIch8lan,
    AcquireSwflagIch8lan,
    CheckForCopperLinkIch8lan,
    CheckMngModeIch8lan,
    CheckMngModePchlan,
    CheckResetBlockIch8lan,
    CleanupLedIch8lan,
    CleanupLedPchlan,
    ClearHwCntrsIch8lan,
    GetBusInfoIch8lan,
    GetCfgDoneIch8lan,
    GetLinkUpInfoIch8lan,
    IdLedInitPchlan,
    InitHwIch8lan,
    InitMacParamsIch8lan,
    InitNvmParamsIch8lan,
    InitPhyParamsPchlan,
    LedOffIch8lan,
    LedOffPchlan,
    LedOnIch8lan,
    LedOnPchlan,
    PhyHwResetIch8lan,
    PowerDownPhyCopperIch8lan,
    RarSetPch2lan,
    RarSetPchLpt,
    ReadNvmIch8lan,
    ReadNvmSpt,
    ReleaseNvmIch8lan,
    ReleaseSwflagIch8lan,
    ResetHwIch8lan,
    SetLpluStatePchlan,
    SetObffTimerPchLpt,
    SetupCopperLinkIch8lan,
    SetupCopperLinkPchLpt,
    SetupLedPchlan,
    SetupLinkIch8lan,
    UpdateMcAddrListPch2lan,
    UpdateNvmChecksumIch8lan,
    UpdateNvmChecksumSpt,
    ValidLedDefaultIch8lan,
    ValidateNvmChecksumIch8lan,
    WriteNvmIch8lan,
    // Generic functions of the driver.
    BlinkLedGeneric,
    CheckPolarity82577,
    CheckPolarityM88,
    GetCableLength82577,
    GetCableLengthM88,
    GetPhyInfo82577,
    GetPhyInfoM88,
    IdLedInitGeneric,
    PhyForceSpeedDuplex82577,
    PhyForceSpeedDuplexM88,
    PhySwResetGeneric,
    PowerUpPhyCopper,
    ReadPhyRegHv,
    ReadPhyRegHvLocked,
    ReadPhyRegPageHv,
    SetLanIdSinglePort,
    SetPageIgp,
    SetupLedGeneric,
    UpdateMcAddrListGeneric,
    WritePhyRegHv,
    WritePhyRegHvLocked,
    WritePhyRegPageHv,
    Other(u32),
}

#[derive(Clone, Copy, Debug, PartialEq)]
pub struct MacOps {
    pub init_params: Option<Func>,
    pub get_bus_info: Option<Func>,
    pub set_lan_id: Option<Func>,
    pub reset_hw: Option<Func>,
    pub init_hw: Option<Func>,
    pub setup_link: Option<Func>,
    pub setup_physical_interface: Option<Func>,
    pub check_for_link: Option<Func>,
    pub get_link_up_info: Option<Func>,
    pub update_mc_addr_list: Option<Func>,
    pub clear_hw_cntrs: Option<Func>,
    pub check_mng_mode: Option<Func>,
    pub id_led_init: Option<Func>,
    pub blink_led: Option<Func>,
    pub setup_led: Option<Func>,
    pub cleanup_led: Option<Func>,
    pub led_on: Option<Func>,
    pub led_off: Option<Func>,
    pub rar_set: Option<Func>,
    pub set_obff_timer: Option<Func>,
    pub config_collision_dist: Option<Func>,
}

impl MacOps {
    /// A table without operations.
    pub open spec fn empty() -> MacOps {
        MacOps {
            init_params: None,
            get_bus_info: None,
            set_lan_id: None,
            reset_hw: None,
            init_hw: None,
            setup_link: None,
            setup_physical_interface: None,
            check_for_link: None,
            get_link_up_info: None,
            update_mc_addr_list: None,
            clear_hw_cntrs: None,
            check_mng_mode: None,
            id_led_init: None,
            blink_led: None,
            setup_led: None,
            cleanup_led: None,
            led_on: None,
            led_off: None,
            rar_set: None,
            set_obff_timer: None,
            config_collision_dist: None,
        }
    }
}

#[derive(Clone, Copy, Debug, PartialEq)]
pub struct PhyOps {
    pub init_params: Option<Func>,
    pub acquire: Option<Func>,
    pub check_reset_block: Option<Func>,
    pub get_cfg_done: Option<Func>,
    pub set_page: Option<Func>,
    pub read_reg: Option<Func>,
    pub read_reg_locked: Option<Func>,
    pub read_reg_page: Option<Func>,
    pub release: Option<Func>,
    pub reset: Option<Func>,
    pub set_d0_lplu_state: Option<Func>,
    pub set_d3_lplu_state: Option<Func>,
    pub write_reg: Option<Func>,
    pub write_reg_locked: Option<Func>,
    pub write_reg_page: Option<Func>,
    pub power_up: Option<Func>,
    pub power_down: Option<Func>,
    pub check_polarity: Option<Func>,
    pub force_speed_duplex: Option<Func>,
    pub get_cable_length: Option<Func>,
    pub get_info: Option<Func>,
    pub commit: Option<Func>,
}

impl PhyOps {
    /// A table without operations.
    pub open spec fn empty() -> PhyOps {
        PhyOps {
            init_params: None,
            acquire: None,
            check_reset_block: None,
            get_cfg_done: None,
            set_page: None,
            read_reg: None,
            read_reg_locked: None,
            read_reg_page: None,
            release: None,
            reset: None,
            set_d0_lplu_state: None,
            set_d3_lplu_state: None,
            write_reg: None,
            write_reg_locked: None,
            write_reg_page: None,
            power_up: None,
            power_down: None,
            check_polarity: None,
            force_speed_duplex: None,
            get_cable_length: None,
            get_info: None,
            commit: None,
        }
    }
}

#[derive(Clone, Copy, Debug, PartialEq)]
pub struct NvmOps {
    pub init_params: Option<Func>,
    pub acquire: Option<Func>,
    pub release: Option<Func>,
    pub read: Option<Func>,
    pub update: Option<Func>,
    pub valid_led_default: Option<Func>,
    pub validate: Option<Func>,
    pub write: Option<Func>,
}

impl NvmOps {
    /// A table without operations.
    pub open spec fn empty() -> NvmOps {
        NvmOps {
            init_params: None,
            acquire: None,
            release: None,
            read: None,
            update: None,
            valid_led_default: None,
            validate: None,
            write: None,
        }
    }
}

/// The number of registers in the multicast table that the driver shadows.
pub const MAX_MTA_REG: usize = 128;

#[derive(Clone, Copy, Debug, PartialEq)]
pub struct MacInfo {
    pub mac_type: MacType,
    pub mta_reg_count: u16,
    pub mta_shadow: [u32; MAX_MTA_REG],
    pub rar_entry_count: u16,
    pub asf_firmware_present: bool,
    pub has_fwsm: bool,
    pub arc_subsystem_valid: bool,
    pub adaptive_ifs: bool,
    pub autoneg: bool,
    pub get_link_status: bool,
    pub max_frame_size: u32,
    pub ledctl_default: u32,
    pub ledctl_mode1: u32,
    pub ledctl_mode2: u32,
    pub ops: MacOps,
}

#[derive(Clone, Copy, Debug, PartialEq)]
pub struct PhyInfo {
    pub phy_type: PhyType,
    pub media_type: MediaType,
    pub addr: u32,
    pub id: u32,
    pub revision: u32,
    pub reset_delay_us: u32,
    pub autoneg_mask: u16,
    pub ops: PhyOps,
}

#[derive(Clone, Copy, Debug, PartialEq)]
pub struct NvmInfo {
    pub nvm_type: NvmType,
    /// The size of the NVM in words.
    pub word_size: u16,
    /// The byte address of the first bank.
    pub flash_base_addr: u32,
    /// The size of one bank in words.
    pub flash_bank_size: u32,
    pub ops: NvmOps,
}

#[derive(Clone, Copy, Debug, PartialEq)]
pub struct FcInfo {
    pub requested_mode: FcMode,
    pub current_mode: FcMode,
    pub pause_time: u16,
    pub refresh_time: u16,
}

#[derive(Clone, Copy, Debug, PartialEq)]
pub struct BusInfo {
    pub width: BusWidth,
}

/// A word written to the NVM that has not been committed to flash yet, if
/// `modified` is set.
#[derive(Clone, Copy, Debug, PartialEq)]
pub struct ShadowRam {
    pub modified: bool,
    pub value: u16,
}

/// The number of words in the shadow RAM.
pub const SHADOW_RAM_LEN: usize = 2048;

#[derive(Clone, Copy, Debug, PartialEq)]
pub struct DevSpecIch8lan {
    pub ulp_state: UlpState,
    pub eee_disable: bool,
    pub eee_lp_ability: u16,
    pub nvm_k1_enabled: bool,
    pub disable_k1_off: bool,
    /// Whether the workaround for loss of the Kumeran lock is enabled; ICH8
    /// alone has it.
    pub kmrn_lock_loss_workaround: bool,
    pub shadow_ram: [ShadowRam; SHADOW_RAM_LEN],
}

#[derive(Clone, Copy, Debug, PartialEq)]
pub struct Hw {
    pub mac: MacInfo,
    pub phy: PhyInfo,
    pub nvm: NvmInfo,
    pub fc: FcInfo,
    pub bus: BusInfo,
    pub dev_spec: DevSpecIch8lan,
    pub device_id: u16,
    /// Where the MAC registers are mapped.
    pub hw_addr: u64,
    /// Where the flash registers are mapped, 0 if they are not.
    pub flash_address: u64,
}

/// The largest bank size, in words, at which offsets into the second bank
/// stay within 32 bits.
pub const MAX_FLASH_BANK_SIZE: u32 = 0x7FFF_0000;

impl Hw {
    /// The tables are as long as their counts say, and no flash or register
    /// address leaves its range.
    pub open spec fn wf(self) -> bool {
        &&& self.mac.mta_reg_count <= MAX_MTA_REG
        &&& self.nvm.word_size <= E1000_SHADOW_RAM_WORDS
        &&& self.nvm.flash_bank_size <= MAX_FLASH_BANK_SIZE
        &&& self.nvm.flash_base_addr <= u32::MAX - ICH_FLASH_LINEAR_ADDR_MASK
        &&& self.hw_addr <= u64::MAX - E1000_FLASH_BASE_ADDR
    }

    /// The state of a device of which nothing but its family and identifier
    /// is known: no operation is in place, nothing is mapped, and no word is
    /// pending.
    pub fn new(mac_type: MacType, device_id: u16) -> (hw: Hw)
        ensures
            hw.wf(),
            hw.mac.mac_type == mac_type,
            hw.device_id == device_id,
            hw.mac.ops == MacOps::empty(),
            hw.phy.ops == PhyOps::empty(),
            hw.nvm.ops == NvmOps::empty(),
            hw.phy.phy_type == PhyType::Type_unknown,
            hw.phy.id == 0,
            hw.nvm.word_size == 0,
            hw.mac.mta_reg_count == 0,
            hw.dev_spec.ulp_state == UlpState::Unknown,
            hw.hw_addr == 0 && hw.flash_address == 0,
            hw.mac.rar_entry_count == 0 && hw.mac.max_frame_size == 0,
            !hw.mac.asf_firmware_present && !hw.mac.has_fwsm && !hw.mac.arc_subsystem_valid,
            !hw.mac.adaptive_ifs && !hw.mac.autoneg && !hw.mac.get_link_status,
            hw.mac.ledctl_default == 0 && hw.mac.ledctl_mode1 == 0 && hw.mac.ledctl_mode2 == 0,
            forall|i: int| 0 <= i < MAX_MTA_REG ==> #[trigger] hw.mac.mta_shadow[i] == 0,
            hw.phy.media_type == MediaType::Unknown,
            hw.phy.addr == 0 && hw.phy.revision == 0 && hw.phy.reset_delay_us == 0,
            hw.phy.autoneg_mask == 0,
            hw.nvm.nvm_type == NvmType::Unknown,
            hw.nvm.flash_base_addr == 0 && hw.nvm.flash_bank_size == 0,
            hw.fc == (FcInfo {
                requested_mode: FcMode::Default,
                current_mode: FcMode::NoPause,
                pause_time: 0,
                refresh_time: 0,
            }),
            hw.bus.width == BusWidth::Unknown,
            !hw.dev_spec.eee_disable && hw.dev_spec.eee_lp_ability == 0,
            !hw.dev_spec.nvm_k1_enabled && !hw.dev_spec.disable_k1_off,
            !hw.dev_spec.kmrn_lock_loss_workaround,
            forall|i: int|
                0 <= i < SHADOW_RAM_LEN ==> #[trigger] hw.dev_spec.shadow_ram[i] == (ShadowRam {
                    modified: false,
                    value: 0xFFFF,
                }),
    {
        Hw {
            mac: MacInfo {
                mac_type,
                mta_reg_count: 0,
                mta_shadow: [0u32;128],
                rar_entry_count: 0,
                asf_firmware_present: false,
                has_fwsm: false,
                arc_subsystem_valid: false,
                adaptive_ifs: false,
                autoneg: false,
                get_link_status: false,
                max_frame_size: 0,
                ledctl_default: 0,
                ledctl_mode1: 0,
                ledctl_mode2: 0,
                ops: MacOps {
                    init_params: None,
                    get_bus_info: None,
                    set_lan_id: None,
                    reset_hw: None,
                    init_hw: None,
                    setup_link: None,
                    setup_physical_interface: None,
                    check_for_link: None,
                    get_link_up_info: None,
                    update_mc_addr_list: None,
                    clear_hw_cntrs: None,
                    check_mng_mode: None,
                    id_led_init: None,
                    blink_led: None,
                    setup_led: None,
                    cleanup_led: None,
                    led_on: None,
                    led_off: None,
                    rar_set: None,
                    set_obff_timer: None,
                    config_collision_dist: None,
                },
            },
            phy: PhyInfo {
                phy_type: PhyType::Type_unknown,
                media_type: MediaType::Unknown,
                addr: 0,
                id: 0,
                revision: 0,
                reset_delay_us: 0,
                autoneg_mask: 0,
                ops: PhyOps {
                    init_params: None,
                    acquire: None,
                    check_reset_block: None,
                    get_cfg_done: None,
                    set_page: None,
                    read_reg: None,
                    read_reg_locked: None,
                    read_reg_page: None,
                    release: None,
                    reset: None,
                    set_d0_lplu_state: None,
                    set_d3_lplu_state: None,
                    write_reg: None,
                    write_reg_locked: None,
                    write_reg_page: None,
                    power_up: None,
                    power_down: None,
                    check_polarity: None,
                    force_speed_duplex: None,
                    get_cable_length: None,
                    get_info: None,
                    commit: None,
                },
            },
            nvm: NvmInfo {
                nvm_type: NvmType::Unknown,
                word_size: 0,
                flash_base_addr: 0,
                flash_bank_size: 0,
                ops: NvmOps {
                    init_params: None,
                    acquire: None,
                    release: None,
                    read: None,
                    update: None,
                    valid_led_default: None,
                    validate: None,
                    write: None,
                },
            },
            fc: FcInfo {
                requested_mode: FcMode::Default,
                current_mode: FcMode::NoPause,
                pause_time: 0,
                refresh_time: 0,
            },
            bus: BusInfo { width: BusWidth::Unknown },
            dev_spec: DevSpecIch8lan {
                ulp_state: UlpState::Unknown,
                eee_disable: false,
                eee_lp_ability: 0,
                nvm_k1_enabled: false,
                disable_k1_off: false,
                kmrn_lock_loss_workaround: false,
                shadow_ram: [ShadowRam { modified: false, value: 0xFFFF };2048],
            },
            device_id,
            hw_addr: 0,
            flash_address: 0,
        }
    }

    /// Tests the invariant.
    pub fn is_wf(&self) -> (res: bool)
        ensures
            res == self.wf(),
    {
        self.mac.mta_reg_count as usize <= MAX_MTA_REG
            && self.nvm.word_size <= E1000_SHADOW_RAM_WORDS
            && self.nvm.flash_bank_size <= MAX_FLASH_BANK_SIZE
            && self.nvm.flash_base_addr <= u32::MAX - ICH_FLASH_LINEAR_ADDR_MASK
            && self.hw_addr <= u64::MAX - E1000_FLASH_BASE_ADDR
    }
}

} // verus!
