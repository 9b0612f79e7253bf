//! Resetting and initializing the hardware.

use vstd::prelude::*;
use crate::consts::{
    E1000_CRC_OFFSET, E1000_CTRL, E1000_CTRL_EXT, E1000_CTRL_EXT_PHYPDEN, E1000_CTRL_EXT_RO_DIS,
    E1000_CTRL_MEHE, E1000_CTRL_PHY_RST, E1000_CTRL_RST, E1000_FEXTNVM3,
    E1000_FEXTNVM3_PHY_CFG_COUNTER_50MSEC, E1000_FEXTNVM3_PHY_CFG_COUNTER_MASK, E1000_ICR,
    E1000_IMC, E1000_KABGTXD, E1000_KABGTXD_BGSQLBIAS, E1000_MTA, E1000_NVM_K1_CONFIG,
    E1000_NVM_K1_ENABLE, E1000_PBA, E1000_PBA_8K, E1000_PBECCSTS, E1000_PBECCSTS_ECC_ENABLE,
    E1000_PBS, E1000_PBS_16K, E1000_RCTL, E1000_RFCTL, E1000_RFCTL_IPV6_EX_DIS,
    E1000_RFCTL_NEW_IPV6_EXT_DIS, E1000_RFCTL_NFSR_DIS, E1000_RFCTL_NFSW_DIS, E1000_STATUS,
    E1000_TARC0, E1000_TARC1, E1000_TCTL, E1000_TCTL_MULR, E1000_TCTL_PSP, E1000_TXDCTL0,
    E1000_TXDCTL1, E1000_TXDCTL_FULL_TX_DESC_WB, E1000_TXDCTL_MAX_TX_DESC_PREFETCH,
    E1000_TXDCTL_PTHRESH, E1000_TXDCTL_WTHRESH, PCIE_ICH8_SNOOP_ALL, PCIE_NO_SNOOP_ALL,
};
use crate::counters::clear_hw_cntrs_ich8lan;
use crate::error::{AdResult, Error};
use crate::hw::{BusInfo, BusWidth, DevSpecIch8lan, Func, Hw, MacType};
use crate::io::{Action, Adapter, Call, Run};
use crate::led::id_led_init_pchlan;
use crate::phy_config::{gate_if_unmanaged, get_cfg_done_ich8lan, post_phy_reset_ich8lan};
use crate::setup::op_setup_link;
use crate::swflag::acquire_swflag_ich8lan;

verus! {

/// The transmit descriptor control register with the write-back policy of a
/// full descriptor and the most prefetching.
pub open spec fn tx_policy(txdctl: u32) -> u32 {
    (((txdctl & !E1000_TXDCTL_WTHRESH) | E1000_TXDCTL_FULL_TX_DESC_WB) & !E1000_TXDCTL_PTHRESH)
        | E1000_TXDCTL_MAX_TX_DESC_PREFETCH
}

/// `v` with the bits of `bits` set if `cond` holds.
pub open spec fn set_if(v: u32, cond: bool, bits: u32) -> u32 {
    if cond {
        v | bits
    } else {
        v
    }
}

impl Run {
    /// The run with another record of the K1 setting of the NVM.
    #[verifier::opaque]
    pub open spec fn with_nvm_k1(self, enabled: bool) -> Run {
        self.with_hw(
            Hw {
                dev_spec: DevSpecIch8lan { nvm_k1_enabled: enabled, ..self.hw.dev_spec },
                ..self.hw
            },
        )
    }

    /// Masks the interrupts and stops transmitter and receiver, and gives
    /// pending transactions time to complete.
    #[verifier::opaque]
    pub open spec fn quiesce(self) -> Run {
        let s = self.invoke(Call::DisablePcieMasterGeneric).0.write_register(
            E1000_IMC,
            0xFFFF_FFFF,
        ).write_register(E1000_RCTL, 0).write_register(
            E1000_TCTL,
            E1000_TCTL_PSP,
        ).write_flush().msec_delay(10);
        if s.is_mac(MacType::Mac_ich8lan) {
            s.write_register(E1000_PBA, E1000_PBA_8K).write_register(E1000_PBS, E1000_PBS_16K)
        } else {
            s
        }
    }

    /// Saves the K1 setting of the NVM, on PCH.
    #[verifier::opaque]
    pub open spec fn save_k1_setting(self) -> (Run, AdResult) {
        if !self.is_mac(MacType::Mac_pchlan) {
            (self, Ok(()))
        } else {
            let (s, r, cfg) = self.nvm_read_word(E1000_NVM_K1_CONFIG, 0);
            if r is Err {
                (s, r)
            } else {
                (s.with_nvm_k1(cfg & E1000_NVM_K1_ENABLE != 0), Ok(()))
            }
        }
    }

    /// Settles what to write to the control register: MAC and PHY are reset
    /// together, so that the interface between them is reset too, unless the
    /// firmware blocks that.
    #[verifier::opaque]
    pub open spec fn plan_reset(self) -> (Run, u32) {
        let (s, ctrl) = self.read_register(E1000_CTRL);
        let (s, blocked) = s.check_reset_block();
        if blocked matches Ok(false) {
            (s.gate_if_unmanaged(), ctrl | E1000_CTRL_PHY_RST)
        } else {
            (s, ctrl)
        }
    }

    /// Issues the reset under the software flag, if that can be had, and waits
    /// for it. No flush may follow the write.
    #[verifier::opaque]
    pub open spec fn issue_reset(self, ctrl: u32) -> Run {
        let s = self.acquire_swflag().0.write_register(
            E1000_CTRL,
            ctrl | E1000_CTRL_RST,
        ).msec_delay(20);
        if s.is_mac(MacType::Mac_pch2lan) {
            s.modify_register(
                E1000_FEXTNVM3,
                E1000_FEXTNVM3_PHY_CFG_COUNTER_MASK,
                E1000_FEXTNVM3_PHY_CFG_COUNTER_50MSEC,
            )
        } else {
            s
        }
    }

    /// Waits for the configuration by way of the table of operations.
    #[verifier::opaque]
    pub open spec fn op_get_cfg_done(self) -> (Run, AdResult) {
        match self.hw.phy.ops.get_cfg_done {
            None => (self, Err(Error::NoFunction)),
            Some(Func::GetCfgDoneIch8lan) => self.get_cfg_done(),
            Some(f) => self.invoke(Call::Op(f)),
        }
    }

    /// What follows a reset of the PHY.
    #[verifier::opaque]
    pub open spec fn await_phy(self) -> (Run, AdResult) {
        let (s, r) = self.op_get_cfg_done();
        if r is Err {
            (s, r)
        } else {
            s.post_phy_reset()
        }
    }

    /// The last steps of a reset: on PCH makes noise show as CRC errors, masks
    /// the interrupts again and clears those pending.
    #[verifier::opaque]
    pub open spec fn finish_reset(self) -> Run {
        let s = if self.is_mac(MacType::Mac_pchlan) {
            self.write_register(E1000_CRC_OFFSET, 0x6565_6565)
        } else {
            self
        };
        s.write_register(E1000_IMC, 0xFFFF_FFFF).read_register(E1000_ICR).0.set_register_bit(
            E1000_KABGTXD,
            E1000_KABGTXD_BGSQLBIAS,
        )
    }

    #[verifier::opaque]
    pub open spec fn reset_hw(self) -> (Run, AdResult) {
        let (s, r) = self.quiesce().save_k1_setting();
        if r is Err {
            (s, r)
        } else {
            let (s, ctrl) = s.plan_reset();
            let s = s.issue_reset(ctrl);
            if ctrl & E1000_CTRL_PHY_RST != 0 {
                let (s, r) = s.await_phy();
                if r is Err {
                    (s, r)
                } else {
                    (s.finish_reset(), Ok(()))
                }
            } else {
                (s.finish_reset(), Ok(()))
            }
        }
    }

    /// Sets up the descriptor queues and their arbitration.
    #[verifier::opaque]
    pub open spec fn initialize_queues(self) -> Run {
        let ich8 = self.is_mac(MacType::Mac_ich8lan);
        let s = self.set_register_bit(E1000_TXDCTL0, 0x0040_0000).set_register_bit(
            E1000_TXDCTL1,
            0x0040_0000,
        );
        let (s, tarc0) = s.read_register(E1000_TARC0);
        let s = s.write_register(E1000_TARC0, set_if(tarc0, ich8, 0x3000_0000) | 0x0D80_0000);
        let (s, tarc1) = s.read_register(E1000_TARC1);
        let (s, tctl) = s.read_register(E1000_TCTL);
        let multiple = if tctl & E1000_TCTL_MULR != 0 {
            tarc1 & !0x1000_0000
        } else {
            tarc1 | 0x1000_0000
        };
        s.write_register(E1000_TARC1, multiple | 0x4500_0000)
    }

    /// Disables the receive filters that do harm: of NFS packets, and on ICH8
    /// of IPv6 extension headers.
    #[verifier::opaque]
    pub open spec fn initialize_filters(self) -> Run {
        let ich8 = self.is_mac(MacType::Mac_ich8lan);
        let s = if ich8 {
            self.clear_register_bit(E1000_STATUS, 0x8000_0000)
        } else {
            self
        };
        let (s, rfctl) = s.read_register(E1000_RFCTL);
        let nfs = rfctl | (E1000_RFCTL_NFSW_DIS | E1000_RFCTL_NFSR_DIS);
        s.write_register(
            E1000_RFCTL,
            set_if(nfs, ich8, E1000_RFCTL_IPV6_EX_DIS | E1000_RFCTL_NEW_IPV6_EXT_DIS),
        )
    }

    #[verifier::opaque]
    pub open spec fn initialize_hw_bits(self) -> Run {
        let (s, ctrl_ext) = self.read_register(E1000_CTRL_EXT);
        let s = s.write_register(
            E1000_CTRL_EXT,
            set_if(
                ctrl_ext | 0x0040_0000,
                s.is_mac(MacType::Mac_pchlan),
                E1000_CTRL_EXT_PHYPDEN,
            ),
        ).initialize_queues().initialize_filters();
        if s.since(MacType::Mac_pch_lpt) {
            s.set_register_bit(E1000_PBECCSTS, E1000_PBECCSTS_ECC_ENABLE).set_register_bit(
                E1000_CTRL,
                E1000_CTRL_MEHE,
            )
        } else {
            s
        }
    }

    /// Initializes the identification LEDs by way of the table of operations.
    #[verifier::opaque]
    pub open spec fn op_id_led_init(self) -> (Run, AdResult) {
        match self.hw.mac.ops.id_led_init {
            None => (self, Err(Error::NoFunction)),
            Some(Func::IdLedInitPchlan) => self.id_led_init(),
            Some(f) => self.invoke(Call::Op(f)),
        }
    }

    /// Clears entries `i` to `count - 1` of the multicast table.
    pub open spec fn clear_mta(self, i: int, count: int) -> Run
        decreases count - i,
    {
        if i >= count {
            self
        } else {
            self.act(Action::WriteRegisterArray(E1000_MTA, i as u32, 0)).clear_mta(i + 1, count)
        }
    }

    /// Initializes LEDs, receive addresses and multicast table. Errors are
    /// passed over.
    #[verifier::opaque]
    pub open spec fn initialize_receiver(self) -> Run {
        let (s, _) = self.op_id_led_init();
        let (s, _) = s.invoke(Call::InitRxAddrsGeneric(s.hw.mac.rar_entry_count));
        s.clear_mta(0, s.hw.mac.mta_reg_count as int)
    }

    /// Sets the policies of the transmit queues, and of snooping, whose bits
    /// have the opposite sense on ICH8.
    #[verifier::opaque]
    pub open spec fn initialize_transmitter(self) -> Run {
        let (s, txdctl) = self.read_register(E1000_TXDCTL0);
        let (s, txdctl1) = s.write_register(E1000_TXDCTL0, tx_policy(txdctl)).read_register(
            E1000_TXDCTL1,
        );
        let s = s.write_register(E1000_TXDCTL1, tx_policy(txdctl1));
        let snoop = if s.is_mac(MacType::Mac_ich8lan) {
            PCIE_ICH8_SNOOP_ALL
        } else {
            !PCIE_NO_SNOOP_ALL
        };
        s.invoke(Call::SetPcieNoSnoopGeneric(snoop)).0.set_register_bit(
            E1000_CTRL_EXT,
            E1000_CTRL_EXT_RO_DIS,
        )
    }

    /// Initializes the hardware; the counters are cleared once a link has been
    /// tried, without which errors are counted wildly. An error in setting up
    /// the link is reported at the end.
    #[verifier::opaque]
    pub open spec fn init_hw(self) -> (Run, AdResult) {
        let (s, link) = self.initialize_hw_bits().initialize_receiver().op_setup_link();
        let (s, r) = s.initialize_transmitter().clear_counters();
        (
            s,
            if r is Err {
                r
            } else {
                link
            },
        )
    }

    /// Has the bus information found out; a width that remains unknown is one
    /// lane of PCI Express.
    #[verifier::opaque]
    pub open spec fn bus_info(self) -> (Run, AdResult) {
        let (s, r) = self.invoke(Call::GetBusInfoPcieGeneric);
        if s.hw.bus.width == BusWidth::Unknown {
            (s.with_hw(Hw { bus: BusInfo { width: BusWidth::Width_pcie_x1 }, ..s.hw }), r)
        } else {
            (s, r)
        }
    }
}

/// Setting the policy of a transmit queue a second time changes nothing.
pub proof fn law_tx_policy_idempotent(txdctl: u32)
    ensures
        tx_policy(tx_policy(txdctl)) == tx_policy(txdctl),
{
    assert({
        let p = (((txdctl & !0x003F_0000) | 0x0101_0000) & !0x0000_003F) | 0x0100_001F;
        (((p & !0x003F_0000) | 0x0101_0000) & !0x0000_003F) | 0x0100_001F == p
    }) by (bit_vector);
}

/// The width of the bus is known once it was looked for.
pub proof fn law_bus_width_known(run: Run)
    ensures
        run.bus_info().0.hw.bus.width != BusWidth::Unknown,
{
    reveal(Run::bus_info);
}

fn quiesce(adapter: &mut Adapter)
    requires
        old(adapter).wf(),
    ensures
        final(adapter).wf(),
        final(adapter)@ == old(adapter)@.quiesce(),
{
    reveal(Run::quiesce);
    // Keeps the bus from sticking on the last transaction before the reset.
    let _ = adapter.invoke(Call::DisablePcieMasterGeneric);
    adapter.write_register(E1000_IMC, 0xFFFF_FFFF);
    adapter.write_register(E1000_RCTL, 0);
    adapter.write_register(E1000_TCTL, E1000_TCTL_PSP);
    adapter.write_flush();
    adapter.msec_delay(10);
    if adapter.is_mac(MacType::Mac_ich8lan) {
        // Bits of the packet buffer can be corrupted with other sizes.
        adapter.write_register(E1000_PBA, E1000_PBA_8K);
        adapter.write_register(E1000_PBS, E1000_PBS_16K);
    }
}

fn set_nvm_k1(adapter: &mut Adapter, enabled: bool)
    requires
        old(adapter).wf(),
    ensures
        final(adapter).wf(),
        final(adapter)@ == old(adapter)@.with_nvm_k1(enabled),
{
    reveal(Run::with_nvm_k1);
    adapter.hw.dev_spec.nvm_k1_enabled = enabled;
}

fn save_k1_setting(adapter: &mut Adapter) -> (res: AdResult)
    requires
        old(adapter).wf(),
    ensures
        final(adapter).wf(),
        (final(adapter)@, res) == old(adapter)@.save_k1_setting(),
{
    reveal(Run::save_k1_setting);
    if adapter.is_mac(MacType::Mac_pchlan) {
        let mut kum_cfg: u16 = 0;
        if let Err(e) = adapter.nvm_read_word(E1000_NVM_K1_CONFIG, &mut kum_cfg) {
            return Err(e);
        }
        set_nvm_k1(adapter, kum_cfg & E1000_NVM_K1_ENABLE != 0);
    }
    Ok(())
}

fn plan_reset(adapter: &mut Adapter) -> (ctrl: u32)
    requires
        old(adapter).wf(),
    ensures
        final(adapter).wf(),
        (final(adapter)@, ctrl) == old(adapter)@.plan_reset(),
{
    reveal(Run::plan_reset);
    let ctrl = adapter.read_register(E1000_CTRL);
    if let Ok(false) = adapter.check_reset_block() {
        gate_if_unmanaged(adapter);
        return ctrl | E1000_CTRL_PHY_RST;
    }
    ctrl
}

fn issue_reset(adapter: &mut Adapter, ctrl: u32)
    requires
        old(adapter).wf(),
    ensures
        final(adapter).wf(),
        final(adapter)@ == old(adapter)@.issue_reset(ctrl),
{
    reveal(Run::issue_reset);
    let _ = acquire_swflag_ich8lan(adapter);
    // A flush after this write hangs the hardware.
    adapter.write_register(E1000_CTRL, ctrl | E1000_CTRL_RST);
    adapter.msec_delay(20);
    if adapter.is_mac(MacType::Mac_pch2lan) {
        adapter.modify_register(
            E1000_FEXTNVM3,
            E1000_FEXTNVM3_PHY_CFG_COUNTER_MASK,
            E1000_FEXTNVM3_PHY_CFG_COUNTER_50MSEC,
        );
    }
}

fn op_get_cfg_done(adapter: &mut Adapter) -> (res: AdResult)
    requires
        old(adapter).wf(),
    ensures
        final(adapter).wf(),
        (final(adapter)@, res) == old(adapter)@.op_get_cfg_done(),
{
    reveal(Run::op_get_cfg_done);
    match adapter.hw.phy.ops.get_cfg_done {
        None => Err(Error::NoFunction),
        Some(Func::GetCfgDoneIch8lan) => get_cfg_done_ich8lan(adapter),
        Some(f) => adapter.invoke(Call::Op(f)),
    }
}

fn await_phy(adapter: &mut Adapter) -> (res: AdResult)
    requires
        old(adapter).wf(),
    ensures
        final(adapter).wf(),
        (final(adapter)@, res) == old(adapter)@.await_phy(),
{
    reveal(Run::await_phy);
    if let Err(e) = op_get_cfg_done(adapter) {
        return Err(e);
    }
    post_phy_reset_ich8lan(adapter)
}

fn finish_reset(adapter: &mut Adapter)
    requires
        old(adapter).wf(),
    ensures
        final(adapter).wf(),
        final(adapter)@ == old(adapter)@.finish_reset(),
{
    reveal(Run::finish_reset);
    if adapter.is_mac(MacType::Mac_pchlan) {
        adapter.write_register(E1000_CRC_OFFSET, 0x6565_6565);
    }
    adapter.write_register(E1000_IMC, 0xFFFF_FFFF);
    let _ = adapter.read_register(E1000_ICR);
    adapter.set_register_bit(E1000_KABGTXD, E1000_KABGTXD_BGSQLBIAS);
}

/// Resets the hardware: the MAC, and the PHY unless the firmware blocks that.
pub fn reset_hw_ich8lan(adapter: &mut Adapter) -> (res: AdResult)
    requires
        old(adapter).wf(),
    ensures
        final(adapter).wf(),
        (final(adapter)@, res) == old(adapter)@.reset_hw(),
{
    reveal(Run::reset_hw);
    quiesce(adapter);
    if let Err(e) = save_k1_setting(adapter) {
        return Err(e);
    }
    let ctrl = plan_reset(adapter);
    issue_reset(adapter, ctrl);
    if ctrl & E1000_CTRL_PHY_RST != 0 {
        if let Err(e) = await_phy(adapter) {
            return Err(e);
        }
    }
    finish_reset(adapter);
    Ok(())
}

fn initialize_queues(adapter: &mut Adapter)
    requires
        old(adapter).wf(),
    ensures
        final(adapter).wf(),
        final(adapter)@ == old(adapter)@.initialize_queues(),
{
    reveal(Run::initialize_queues);
    let ich8 = adapter.is_mac(MacType::Mac_ich8lan);
    adapter.set_register_bit(E1000_TXDCTL0, 0x0040_0000);
    adapter.set_register_bit(E1000_TXDCTL1, 0x0040_0000);
    let mut reg: u32 = adapter.read_register(E1000_TARC0);
    if ich8 {
        reg = reg | 0x3000_0000;
    }
    adapter.write_register(E1000_TARC0, reg | 0x0D80_0000);
    reg = adapter.read_register(E1000_TARC1);
    if adapter.read_register(E1000_TCTL) & E1000_TCTL_MULR != 0 {
        reg = reg & !0x1000_0000;
    } else {
        reg = reg | 0x1000_0000;
    }
    adapter.write_register(E1000_TARC1, reg | 0x4500_0000);
}

fn initialize_filters(adapter: &mut Adapter)
    requires
        old(adapter).wf(),
    ensures
        final(adapter).wf(),
        final(adapter)@ == old(adapter)@.initialize_filters(),
{
    reveal(Run::initialize_filters);
    let ich8 = adapter.is_mac(MacType::Mac_ich8lan);
    if ich8 {
        adapter.clear_register_bit(E1000_STATUS, 0x8000_0000);
    }
    let mut reg: u32 = adapter.read_register(E1000_RFCTL);
    reg = reg | (E1000_RFCTL_NFSW_DIS | E1000_RFCTL_NFSR_DIS);
    if ich8 {
        reg = reg | (E1000_RFCTL_IPV6_EX_DIS | E1000_RFCTL_NEW_IPV6_EXT_DIS);
    }
    adapter.write_register(E1000_RFCTL, reg);
}

/// Sets and clears the hardware bits that transmission and reception need.
pub fn initialize_hw_bits_ich8lan(adapter: &mut Adapter)
    requires
        old(adapter).wf(),
    ensures
        final(adapter).wf(),
        final(adapter)@ == old(adapter)@.initialize_hw_bits(),
{
    reveal(Run::initialize_hw_bits);
    let mut reg: u32 = adapter.read_register(E1000_CTRL_EXT);
    reg = reg | 0x0040_0000;
    if adapter.is_mac(MacType::Mac_pchlan) {
        reg = reg | E1000_CTRL_EXT_PHYPDEN;
    }
    adapter.write_register(E1000_CTRL_EXT, reg);
    initialize_queues(adapter);
    initialize_filters(adapter);
    if adapter.mac_since(MacType::Mac_pch_lpt) {
        adapter.set_register_bit(E1000_PBECCSTS, E1000_PBECCSTS_ECC_ENABLE);
        adapter.set_register_bit(E1000_CTRL, E1000_CTRL_MEHE);
    }
}

fn op_id_led_init(adapter: &mut Adapter) -> (res: AdResult)
    requires
        old(adapter).wf(),
    ensures
        final(adapter).wf(),
        (final(adapter)@, res) == old(adapter)@.op_id_led_init(),
{
    reveal(Run::op_id_led_init);
    match adapter.hw.mac.ops.id_led_init {
        None => Err(Error::NoFunction),
        Some(Func::IdLedInitPchlan) => id_led_init_pchlan(adapter),
        Some(f) => adapter.invoke(Call::Op(f)),
    }
}

fn clear_mta(adapter: &mut Adapter)
    requires
        old(adapter).wf(),
    ensures
        final(adapter).wf(),
        final(adapter)@ == old(adapter)@.clear_mta(0, old(adapter).hw.mac.mta_reg_count as int),
{
    let count: u32 = adapter.hw.mac.mta_reg_count as u32;
    let mut i: u32 = 0;
    while i < count
        invariant
            adapter.wf(),
            i <= count,
            count == old(adapter).hw.mac.mta_reg_count,
            adapter@.clear_mta(i as int, count as int) == old(adapter)@.clear_mta(0, count as int),
        decreases count - i,
    {
        adapter.write_register_array(E1000_MTA, i, 0);
        i = i + 1;
    }
}

fn initialize_receiver(adapter: &mut Adapter)
    requires
        old(adapter).wf(),
    ensures
        final(adapter).wf(),
        final(adapter)@ == old(adapter)@.initialize_receiver(),
{
    reveal(Run::initialize_receiver);
    let _ = op_id_led_init(adapter);
    let rar_count: u16 = adapter.hw.mac.rar_entry_count;
    let _ = adapter.invoke(Call::InitRxAddrsGeneric(rar_count));
    clear_mta(adapter);
}

fn set_tx_policy(txdctl: u32) -> (res: u32)
    ensures
        res == tx_policy(txdctl),
{
    let written: u32 = (txdctl & !E1000_TXDCTL_WTHRESH) | E1000_TXDCTL_FULL_TX_DESC_WB;
    (written & !E1000_TXDCTL_PTHRESH) | E1000_TXDCTL_MAX_TX_DESC_PREFETCH
}

fn initialize_transmitter(adapter: &mut Adapter)
    requires
        old(adapter).wf(),
    ensures
        final(adapter).wf(),
        final(adapter)@ == old(adapter)@.initialize_transmitter(),
{
    reveal(Run::initialize_transmitter);
    let txdctl = adapter.read_register(E1000_TXDCTL0);
    adapter.write_register(E1000_TXDCTL0, set_tx_policy(txdctl));
    let txdctl = adapter.read_register(E1000_TXDCTL1);
    adapter.write_register(E1000_TXDCTL1, set_tx_policy(txdctl));
    let snoop: u32 = if adapter.is_mac(MacType::Mac_ich8lan) {
        PCIE_ICH8_SNOOP_ALL
    } else {
        !PCIE_NO_SNOOP_ALL
    };
    let _ = adapter.invoke(Call::SetPcieNoSnoopGeneric(snoop));
    adapter.set_register_bit(E1000_CTRL_EXT, E1000_CTRL_EXT_RO_DIS);
}

/// Prepares the hardware for transmitting and receiving: initializes hardware
/// bits and identification LEDs, sets up receive addresses, multicast table,
/// link, flow control and transmit descriptors, and clears the statistics.
pub fn init_hw_ich8lan(adapter: &mut Adapter) -> (res: AdResult)
    requires
        old(adapter).wf(),
    ensures
        final(adapter).wf(),
        (final(adapter)@, res) == old(adapter)@.init_hw(),
{
    reveal(Run::init_hw);
    initialize_hw_bits_ich8lan(adapter);
    initialize_receiver(adapter);
    let setup_link_result = op_setup_link(adapter);
    initialize_transmitter(adapter);
    if let Err(e) = clear_hw_cntrs_ich8lan(adapter) {
        return Err(e);
    }
    setup_link_result
}

/// Gets the type and width of the bus. These devices have no PCI Express
/// capability register, so their width is fixed.
pub fn get_bus_info_ich8lan(adapter: &mut Adapter) -> (res: AdResult)
    requires
        old(adapter).wf(),
    ensures
        final(adapter).wf(),
        (final(adapter)@, res) == old(adapter)@.bus_info(),
{
    reveal(Run::bus_info);
    let res = adapter.invoke(Call::GetBusInfoPcieGeneric);
    if adapter.hw.bus.width == BusWidth::Unknown {
        adapter.hw.bus.width = BusWidth::Width_pcie_x1;
    }
    res
}

} // verus!
