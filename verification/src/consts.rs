//! Register offsets, bit masks, PHY register addresses and limits of the
//! ICH8/PCH family of gigabit Ethernet controllers.

use vstd::prelude::*;

verus! {

// MAC registers.
pub const E1000_CTRL: u32 = 0x00000;
pub const E1000_STATUS: u32 = 0x00008;
pub const E1000_STRAP: u32 = 0x0000C;
pub const E1000_EECD: u32 = 0x00010;
pub const E1000_FEXTNVM6: u32 = 0x00010;
pub const E1000_CTRL_EXT: u32 = 0x00018;
pub const E1000_FEXTNVM4: u32 = 0x00024;
pub const E1000_FEXTNVM: u32 = 0x00028;
pub const E1000_FEXTNVM3: u32 = 0x0003C;
pub const E1000_ICR: u32 = 0x000C0;
pub const E1000_IMC: u32 = 0x000D8;
pub const E1000_FEXTNVM7: u32 = 0x000E4;
pub const E1000_SVCR: u32 = 0x000F0;
pub const E1000_SVT: u32 = 0x000F4;
pub const E1000_LTRV: u32 = 0x000F8;
pub const E1000_RCTL: u32 = 0x00100;
pub const E1000_FCTTV: u32 = 0x00170;
pub const E1000_TCTL: u32 = 0x00400;
pub const E1000_TIPG: u32 = 0x00410;
pub const E1000_LEDCTL: u32 = 0x00E00;
pub const E1000_EXTCNF_CTRL: u32 = 0x00F00;
pub const E1000_EXTCNF_SIZE: u32 = 0x00F08;
pub const E1000_PHY_CTRL: u32 = 0x00F10;
pub const E1000_PCIEANACFG: u32 = 0x00F18;
pub const E1000_PBA: u32 = 0x01000;
pub const E1000_PBS: u32 = 0x01008;
pub const E1000_PBECCSTS: u32 = 0x0100C;
pub const E1000_KABGTXD: u32 = 0x03004;
pub const E1000_TXDCTL0: u32 = 0x03828;
pub const E1000_TARC0: u32 = 0x03840;
pub const E1000_TXDCTL1: u32 = 0x03928;
pub const E1000_TARC1: u32 = 0x03940;
pub const E1000_ALGNERRC: u32 = 0x04004;
pub const E1000_RXERRC: u32 = 0x0400C;
pub const E1000_TNCRS: u32 = 0x04034;
pub const E1000_CEXTERR: u32 = 0x0403C;
pub const E1000_MGTPRC: u32 = 0x040B4;
pub const E1000_MGTPDC: u32 = 0x040B8;
pub const E1000_MGTPTC: u32 = 0x040BC;
pub const E1000_TSCTC: u32 = 0x040F8;
pub const E1000_TSCTFC: u32 = 0x040FC;
pub const E1000_IAC: u32 = 0x04100;
pub const E1000_ICRXOC: u32 = 0x04124;
pub const E1000_RFCTL: u32 = 0x05008;
pub const E1000_MTA: u32 = 0x05200;
pub const E1000_RAL0: u32 = 0x05400;
pub const E1000_RAH0: u32 = 0x05404;
/// The first shared receive address register pair; the pairs are 8 bytes apart.
pub const E1000_SHRAL_PCH_LPT_BASE: u32 = 0x05408;
pub const E1000_SHRAH_PCH_LPT_BASE: u32 = 0x0540C;
pub const E1000_H2ME: u32 = 0x05B50;
pub const E1000_FWSM: u32 = 0x05B54;
pub const E1000_FFLT_DBG: u32 = 0x05F04;
pub const E1000_FCRTV_PCH: u32 = 0x05F40;
pub const E1000_CRC_OFFSET: u32 = 0x05F50;

// CTRL.
pub const E1000_CTRL_SLU: u32 = 0x00000040;
pub const E1000_CTRL_FRCSPD: u32 = 0x00000800;
pub const E1000_CTRL_FRCDPX: u32 = 0x00001000;
pub const E1000_CTRL_LANPHYPC_OVERRIDE: u32 = 0x00010000;
pub const E1000_CTRL_LANPHYPC_VALUE: u32 = 0x00020000;
pub const E1000_CTRL_MEHE: u32 = 0x00080000;
pub const E1000_CTRL_RST: u32 = 0x04000000;
pub const E1000_CTRL_PHY_RST: u32 = 0x80000000;

// CTRL_EXT.
pub const E1000_CTRL_EXT_LPCD: u32 = 0x00000004;
pub const E1000_CTRL_EXT_FORCE_SMBUS: u32 = 0x00000800;
pub const E1000_CTRL_EXT_RO_DIS: u32 = 0x00020000;
pub const E1000_CTRL_EXT_PHYPDEN: u32 = 0x00100000;

// STATUS.
pub const E1000_STATUS_FD: u32 = 0x00000001;
pub const E1000_STATUS_LU: u32 = 0x00000002;
pub const E1000_STATUS_SPEED_100: u32 = 0x00000040;
pub const E1000_STATUS_SPEED_1000: u32 = 0x00000080;
pub const E1000_STATUS_LAN_INIT_DONE: u32 = 0x00000200;
pub const E1000_STATUS_PHYRA: u32 = 0x00000400;

// EECD.
pub const E1000_EECD_PRES: u32 = 0x00000100;
pub const E1000_EECD_SEC1VAL_VALID_MASK: u32 = 0x00000300;
pub const E1000_EECD_SEC1VAL: u32 = 0x00400000;

// EXTCNF_CTRL and EXTCNF_SIZE.
pub const E1000_EXTCNF_CTRL_LCD_WRITE_ENABLE: u32 = 0x00000001;
pub const E1000_EXTCNF_CTRL_OEM_WRITE_ENABLE: u32 = 0x00000008;
pub const E1000_EXTCNF_CTRL_SWFLAG: u32 = 0x00000020;
pub const E1000_EXTCNF_CTRL_GATE_PHY_CFG: u32 = 0x00000080;
pub const E1000_EXTCNF_CTRL_EXT_CNF_POINTER_MASK: u32 = 0x0FFF0000;
pub const E1000_EXTCNF_CTRL_EXT_CNF_POINTER_SHIFT: u32 = 16;
pub const E1000_EXTCNF_SIZE_EXT_PCIE_LENGTH_MASK: u32 = 0x00FF0000;
pub const E1000_EXTCNF_SIZE_EXT_PCIE_LENGTH_SHIFT: u32 = 16;

// FEXTNVM family.
pub const E1000_FEXTNVM_SW_CONFIG: u32 = 0x00000001;
pub const E1000_FEXTNVM_SW_CONFIG_ICH8M: u32 = 0x08000000;
pub const E1000_FEXTNVM3_PHY_CFG_COUNTER_MASK: u32 = 0x0C000000;
pub const E1000_FEXTNVM3_PHY_CFG_COUNTER_50MSEC: u32 = 0x08000000;
pub const E1000_FEXTNVM4_BEACON_DURATION_MASK: u32 = 0x00000007;
pub const E1000_FEXTNVM4_BEACON_DURATION_8USEC: u32 = 0x00000007;
pub const E1000_FEXTNVM6_REQ_PLL_CLK: u32 = 0x00000100;
pub const E1000_FEXTNVM6_ENABLE_K1_ENTRY_CONDITION: u32 = 0x00000200;
pub const E1000_FEXTNVM6_K1_OFF_ENABLE: u32 = 0x80000000;
pub const E1000_FEXTNVM7_DISABLE_SMB_PERST: u32 = 0x00000020;

// FWSM and H2ME: the firmware and management engine interface.
pub const E1000_ICH_FWSM_RSPCIPHY: u32 = 0x00000040;
pub const E1000_FWSM_WLOCK_MAC_MASK: u32 = 0x00000380;
pub const E1000_FWSM_WLOCK_MAC_SHIFT: u32 = 7;
pub const E1000_FWSM_ULP_CFG_DONE: u32 = 0x00000400;
pub const E1000_ICH_FWSM_FW_VALID: u32 = 0x00008000;
pub const E1000_H2ME_ULP: u32 = 0x00000800;
pub const E1000_H2ME_ENFORCE_SETTINGS: u32 = 0x00001000;

// PHY_CTRL.
pub const E1000_PHY_CTRL_D0A_LPLU: u32 = 0x00000002;
pub const E1000_PHY_CTRL_NOND0A_LPLU: u32 = 0x00000004;
pub const E1000_PHY_CTRL_NOND0A_GBE_DISABLE: u32 = 0x00000008;
pub const E1000_PHY_CTRL_GBE_DISABLE: u32 = 0x00000040;

// LED control.
pub const E1000_LEDCTL_LED0_MODE_MASK: u32 = 0x0000000F;
pub const E1000_LEDCTL_MODE_LINK_UP: u32 = 0x00000002;
pub const E1000_PHY_LED0_MODE_MASK: u32 = 0x00000007;
pub const E1000_PHY_LED0_IVRT: u32 = 0x00000008;
pub const E1000_PHY_LED0_MASK: u32 = 0x0000001F;

// Latency tolerance reporting and optimized buffer flush/fill.
pub const E1000_LTRV_VALUE_MASK: u32 = 0x000003FF;
pub const E1000_LTRV_SCALE_MASK: u32 = 0x00001C00;
pub const E1000_LTRV_SCALE_SHIFT: u32 = 10;
pub const E1000_LTRV_SCALE_FACTOR: u32 = 5;
pub const E1000_LTRV_SCALE_MAX: u32 = 5;
pub const E1000_LTRV_REQ_SHIFT: u32 = 15;
pub const E1000_LTRV_NOSNOOP_SHIFT: u32 = 16;
pub const E1000_LTRV_SEND: u32 = 0x40000000;
pub const E1000_SVCR_OFF_EN: u32 = 0x00000001;
pub const E1000_SVCR_OFF_MASKINT: u32 = 0x00001000;
pub const E1000_SVT_OFF_HWM_MASK: u32 = 0x0000001F;
pub const E1000_PCI_LTR_CAP_LPT: u32 = 0xA8;

// Packet buffers, queues and filters.
pub const E1000_PBA_8K: u32 = 0x0008;
pub const E1000_PBS_16K: u32 = 0x0010;
pub const E1000_PBA_RXA_MASK: u32 = 0x0000FFFF;
pub const E1000_PBECCSTS_ECC_ENABLE: u32 = 0x00010000;
pub const E1000_KABGTXD_BGSQLBIAS: u32 = 0x00050000;
pub const E1000_RAH_AV: u32 = 0x80000000;
pub const E1000_RCTL_SECRC: u32 = 0x04000000;
pub const E1000_RFCTL_NFSW_DIS: u32 = 0x00000040;
pub const E1000_RFCTL_NFSR_DIS: u32 = 0x00000080;
pub const E1000_RFCTL_IPV6_EX_DIS: u32 = 0x00010000;
pub const E1000_RFCTL_NEW_IPV6_EXT_DIS: u32 = 0x00020000;
pub const E1000_TCTL_PSP: u32 = 0x00000008;
pub const E1000_TCTL_MULR: u32 = 0x10000000;
pub const E1000_TIPG_IPGT_MASK: u32 = 0x000003FF;
pub const E1000_TXDCTL_PTHRESH: u32 = 0x0000003F;
pub const E1000_TXDCTL_WTHRESH: u32 = 0x003F0000;
pub const E1000_TXDCTL_FULL_TX_DESC_WB: u32 = 0x01010000;
pub const E1000_TXDCTL_MAX_TX_DESC_PREFETCH: u32 = 0x0100001F;
pub const PCIE_NO_SNOOP_ALL: u32 = 0x0000003F;
pub const PCIE_ICH8_SNOOP_ALL: u32 = 0x0000003F;

// STRAP.
pub const E1000_STRAP_SMT_FREQ_MASK: u32 = 0x00003000;
pub const E1000_STRAP_SMT_FREQ_SHIFT: u32 = 12;
pub const E1000_STRAP_SMBUS_ADDRESS_MASK: u32 = 0x00FE0000;
pub const E1000_STRAP_SMBUS_ADDRESS_SHIFT: u32 = 17;

// Kumeran interface.
pub const E1000_KMRNCTRLSTA_CTRL_OFFSET: u32 = 0x1;
pub const E1000_KMRNCTRLSTA_K1_CONFIG: u32 = 0x7;
pub const E1000_KMRNCTRLSTA_HD_CTRL: u32 = 0x10;
pub const E1000_KMRNCTRLSTA_K1_ENABLE: u16 = 0x0002;

// Flash registers.
pub const E1000_FLASH_BASE_ADDR: u64 = 0xE000;
pub const ICH_FLASH_GFPREG: u32 = 0x0000;
pub const ICH_FLASH_HSFSTS: u32 = 0x0004;
pub const ICH_FLASH_HSFCTL: u32 = 0x0006;
pub const ICH_FLASH_FADDR: u32 = 0x0008;
pub const ICH_FLASH_FDATA0: u32 = 0x0010;
pub const FLASH_GFPREG_BASE_MASK: u32 = 0x1FFF;
pub const FLASH_SECTOR_ADDR_SHIFT: u32 = 12;
pub const NVM_SIZE_MULTIPLIER: u32 = 4096;
pub const ICH_FLASH_LINEAR_ADDR_MASK: u32 = 0x00FFFFFF;
pub const ICH_FLASH_READ_COMMAND_TIMEOUT: u32 = 500;
pub const ICH_FLASH_WRITE_COMMAND_TIMEOUT: u32 = 500;
pub const ICH_FLASH_CYCLE_REPEAT_COUNT: u32 = 10;

// Fields of the flash status register.
pub const HSFSTS_FLCDONE: u16 = 0x0001;
pub const HSFSTS_FLCERR: u16 = 0x0002;
pub const HSFSTS_DAEL: u16 = 0x0004;
pub const HSFSTS_FLCINPROG: u16 = 0x0020;
pub const HSFSTS_FLDESVALID: u16 = 0x4000;

// Fields of the flash control register.
pub const HSFCTL_FLCGO: u16 = 0x0001;
pub const HSFCTL_FLCYCLE_MASK: u16 = 0x0006;
pub const HSFCTL_FLCYCLE_READ: u16 = 0x0000;
pub const HSFCTL_FLCYCLE_WRITE: u16 = 0x0004;
pub const HSFCTL_FLDBCOUNT_MASK: u16 = 0x0300;
pub const HSFCTL_FLDBCOUNT_BYTE: u16 = 0x0000;
pub const HSFCTL_FLDBCOUNT_WORD: u16 = 0x0100;
pub const HSFCTL_FLDBCOUNT_DWORD: u16 = 0x0300;

// NVM layout.
pub const E1000_SHADOW_RAM_WORDS: u16 = 2048;
pub const E1000_ICH_NVM_SIG_WORD: u32 = 0x13;
pub const E1000_ICH_NVM_VALID_SIG_MASK: u8 = 0xC0;
pub const E1000_ICH_NVM_SIG_VALUE: u8 = 0x80;
pub const NVM_COMPAT: u16 = 0x0003;
pub const NVM_COMPAT_VALID_CSUM: u16 = 0x0001;
pub const NVM_ID_LED_SETTINGS: u16 = 0x0004;
pub const NVM_FUTURE_INIT_WORD1: u16 = 0x0019;
pub const NVM_FUTURE_INIT_WORD1_VALID_CSUM: u16 = 0x0040;
pub const E1000_NVM_K1_CONFIG: u16 = 0x001B;
pub const E1000_NVM_K1_ENABLE: u16 = 0x0001;

// Identification LED settings.
pub const ID_LED_RESERVED_0000: u16 = 0x0000;
pub const ID_LED_RESERVED_FFFF: u16 = 0xFFFF;
pub const ID_LED_DEFAULT_ICH8LAN: u16 = 0x1981;
pub const ID_LED_DEF1_ON2: u16 = 0x2;
pub const ID_LED_DEF1_OFF2: u16 = 0x3;
pub const ID_LED_ON1_DEF2: u16 = 0x4;
pub const ID_LED_ON1_ON2: u16 = 0x5;
pub const ID_LED_ON1_OFF2: u16 = 0x6;
pub const ID_LED_OFF1_DEF2: u16 = 0x7;
pub const ID_LED_OFF1_ON2: u16 = 0x8;
pub const ID_LED_OFF1_OFF2: u16 = 0x9;

// PHY addressing.
pub const PHY_PAGE_SHIFT: u32 = 5;
pub const PHY_UPPER_SHIFT: u32 = 21;
pub const MAX_PHY_REG_ADDRESS: u32 = 0x1F;
pub const PHY_REG_MASK: u16 = 0x1F;
pub const IGP_PAGE_SHIFT: u16 = 5;
pub const IGP01E1000_PHY_PAGE_SELECT: u16 = 0x1F;
pub const PHY_REVISION_MASK: u32 = 0xFFFFFFF0;

// PHY registers.
pub const PHY_ID1: u32 = 0x02;
pub const PHY_ID2: u32 = 0x03;
pub const PHY_LP_ABILITY: u32 = 0x05;
pub const IFE_PHY_SPECIAL_CONTROL_LED: u32 = 0x1B;
pub const I82579_EMI_ADDR: u32 = 0x10;
pub const I82579_EMI_DATA: u32 = 0x11;
/// SMBus address, page 768 register 26.
pub const HV_SMB_ADDR: u32 = 0x601A;
/// OEM bits, page 768 register 25.
pub const HV_OEM_BITS: u32 = 0x6019;
/// LED configuration, page 768 register 30.
pub const HV_LED_CONFIG: u32 = 0x601E;
/// Page 769 register 16.
pub const PHY_769_16: u32 = 0x6030;
/// Port general configuration, page 769 register 17.
pub const BM_PORT_GEN_CFG: u32 = 0x6031;
/// Page 769 register 20.
pub const PHY_769_20: u32 = 0x6034;
/// SMBus control, page 769 register 23.
pub const CV_SMB_CTRL: u32 = 0x6037;
/// Pause time, page 769 register 27.
pub const BM_PORT_PAUSE_TIME: u32 = 0x603B;
/// Kumeran FIFO control and status, page 770 register 16.
pub const HV_KMRN_FIFO_CTRLSTA: u32 = 0x6050;
/// Power management control, page 770 register 17.
pub const HV_PM_CTRL: u32 = 0x6051;
/// Inband control, page 770 register 18.
pub const I217_INBAND_CTRL: u32 = 0x6052;
/// Low power idle control, page 772 register 20.
pub const I82579_LPI_CTRL: u32 = 0x6094;
/// PLL clock gate, page 772 register 28.
pub const I217_PLL_CLOCK_GATE_REG: u32 = 0x609C;
/// Transmit pointer gap, page 776 register 20.
pub const PHY_776_20: u32 = 0x6114;
/// Page 776 register 23.
pub const PHY_776_23: u32 = 0x6117;
/// Statistics, page 778 registers 16 to 30.
pub const HV_STATS_PAGE: u16 = 778;
pub const HV_SCC_UPPER: u32 = 0x6150;
pub const HV_SCC_LOWER: u32 = 0x6151;
pub const HV_ECOL_UPPER: u32 = 0x6152;
pub const HV_ECOL_LOWER: u32 = 0x6153;
pub const HV_MCC_UPPER: u32 = 0x6154;
pub const HV_MCC_LOWER: u32 = 0x6155;
pub const HV_LATECOL_UPPER: u32 = 0x6157;
pub const HV_LATECOL_LOWER: u32 = 0x6158;
pub const HV_COLC_UPPER: u32 = 0x6159;
pub const HV_COLC_LOWER: u32 = 0x615A;
pub const HV_DC_UPPER: u32 = 0x615B;
pub const HV_DC_LOWER: u32 = 0x615C;
pub const HV_TNCRS_UPPER: u32 = 0x615D;
pub const HV_TNCRS_LOWER: u32 = 0x615E;
/// Ultra low power configuration, page 779 register 16.
pub const I218_ULP_CONFIG1: u32 = 0x6170;
/// The page of the wakeup registers, which hold the PHY's multicast table.
pub const BM_WUC_PAGE: u32 = 800;

// Extended management interface addresses.
pub const I217_EEE_ADVERTISEMENT: u16 = 0x8001;
pub const I217_EEE_LP_ABILITY: u16 = 0x8002;
pub const I217_EEE_PCS_STATUS: u16 = 0x9401;
pub const I217_RX_CONFIG: u16 = 0xB20C;
pub const I82579_RX_CONFIG: u16 = 0x3412;
pub const I82579_MSE_THRESHOLD: u16 = 0x084F;
pub const I82579_MSE_LINK_DOWN: u16 = 0x2411;
pub const I82579_LPI_UPDATE_TIMER: u16 = 0x4805;

// Fields of PHY registers.
pub const AUTONEG_ADVERTISE_SPEED_DEFAULT: u16 = 0x2F;
pub const BM_WUC_HOST_WU_BIT: u16 = 0x0010;
pub const CV_SMB_CTRL_FORCE_SMBUS: u16 = 0x0001;
pub const E1000_TX_PTR_GAP: u16 = 0x1F;
pub const HV_KMRN_FIFO_CTRLSTA_PREAMBLE_MASK: u16 = 0x7000;
pub const HV_KMRN_FIFO_CTRLSTA_PREAMBLE_ONE: u16 = 0x1000;
pub const HV_OEM_BITS_LPLU: u16 = 0x0004;
pub const HV_OEM_BITS_GBE_DIS: u16 = 0x0040;
pub const HV_OEM_BITS_RESTART_AN: u16 = 0x0400;
pub const HV_PM_CTRL_K1_CLK_REQ: u16 = 0x0200;
pub const HV_PM_CTRL_K1_ENABLE: u16 = 0x4000;
pub const HV_SMB_ADDR_MASK: u16 = 0x007F;
pub const HV_SMB_ADDR_VALID: u16 = 0x0080;
pub const HV_SMB_ADDR_PEC_EN: u16 = 0x0200;
pub const HV_SMB_ADDR_FREQ_MASK: u16 = 0x1100;
pub const HV_SMB_ADDR_FREQ_LOW_SHIFT: u32 = 8;
pub const HV_SMB_ADDR_FREQ_HIGH_SHIFT: u32 = 12;
pub const I217_INBAND_CTRL_LINK_STAT_TX_TIMEOUT_MASK: u16 = 0x3F00;
/// The inband transmit timeouts of 5x10us and 50x10us, in place.
pub const I217_INBAND_CTRL_TX_TIMEOUT_50US: u16 = 0x0500;
pub const I217_INBAND_CTRL_TX_TIMEOUT_500US: u16 = 0x3200;
pub const I217_PLL_CLOCK_GATE_MASK: u16 = 0x07FF;
pub const I218_ULP_CONFIG1_START: u16 = 0x0001;
/// IND, STICKY_ULP, INBAND_EXIT, WOL_HOST, RESET_TO_SMBUS, EN_ULP_LANPHYPC,
/// DIS_CLR_STICKY_ON_PERST and DISABLE_SMB_PERST.
pub const I218_ULP_CONFIG1_ENABLED_BITS: u16 = 0x1D74;
pub const I82579_EEE_100_SUPPORTED: u16 = 0x0002;
pub const I82579_EEE_1000_SUPPORTED: u16 = 0x0004;
pub const I82579_LPI_CTRL_100_ENABLE: u16 = 0x2000;
pub const I82579_LPI_CTRL_1000_ENABLE: u16 = 0x4000;
pub const I82579_LPI_CTRL_ENABLE_MASK: u16 = 0x6000;
pub const IFE_PSCL_PROBE_MODE_LEDS_OFF: u16 = 0x0026;
pub const IFE_PSCL_PROBE_MODE_LEDS_ON: u16 = 0x0027;
pub const NWAY_LPAR_100TX_FD_CAPS: u16 = 0x0100;
pub const PTR_GAP_MASK: u16 = 0x0FFC;
pub const PTR_GAP_SHIFT: u16 = 2;

// Link speed and duplex.
pub const SPEED_10: u16 = 10;
pub const SPEED_100: u16 = 100;
pub const SPEED_1000: u16 = 1000;
pub const HALF_DUPLEX: u16 = 1;
pub const FULL_DUPLEX: u16 = 2;

// Counts and time limits.
pub const E1000_ICH_RAR_ENTRIES: u16 = 7;
pub const E1000_PCH2_RAR_ENTRIES: u16 = 5;
pub const E1000_PCH_LPT_RAR_ENTRIES: u16 = 12;
pub const PHY_CFG_TIMEOUT: u32 = 100;
pub const SW_FLAG_TIMEOUT: u32 = 1000;
pub const E1000_ICH8_LAN_INIT_TIMEOUT: u32 = 1500;

// Device identifiers.
pub const E1000_DEV_ID_ICH8_IGP_AMT: u16 = 0x104A;
pub const E1000_DEV_ID_ICH8_IGP_C: u16 = 0x104B;
pub const E1000_DEV_ID_PCH_LPT_I217_LM: u16 = 0x153A;
pub const E1000_DEV_ID_PCH_LPT_I217_V: u16 = 0x153B;
pub const E1000_DEV_ID_PCH_LPTLP_I218_V: u16 = 0x1559;
pub const E1000_DEV_ID_PCH_LPTLP_I218_LM: u16 = 0x155A;
pub const E1000_DEV_ID_PCH_I218_LM2: u16 = 0x15A0;
pub const E1000_DEV_ID_PCH_I218_V2: u16 = 0x15A1;
pub const E1000_DEV_ID_PCH_I218_LM3: u16 = 0x15A2;
pub const E1000_DEV_ID_PCH_I218_V3: u16 = 0x15A3;

} // verus!
