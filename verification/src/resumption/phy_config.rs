//! Resuming: configuring the PHY.

use vstd::prelude::*;
use crate::consts::PHY_REG_MASK;
use crate::io::{Reply, Run};
use crate::resume::{agree, group_resumes};

verus! {

impl Run {
    /// `copy_smbus_address` only adds to a run, and resumes with more answers.
    pub broadcast proof fn law_copy_smbus_address_resumes(self)
        ensures
            (#[trigger] self.copy_smbus_address()).0.continues(self),
            forall|more: Seq<Reply>|
                agree(
                    #[trigger] self.fed(more).copy_smbus_address(),
                    self.copy_smbus_address(),
                    more,
                ),
    {
        broadcast use group_resumes;

        self.lemma_start();
        reveal(Run::copy_smbus_address);
    }

    /// `configure_smbus_and_led` only adds to a run, and resumes with more answers.
    pub broadcast proof fn law_configure_smbus_and_led_resumes(self, extcnf_ctrl: u32)
        ensures
            (#[trigger] self.configure_smbus_and_led(extcnf_ctrl)).0.continues(self),
            forall|more: Seq<Reply>|
                agree(
                    #[trigger] self.fed(more).configure_smbus_and_led(extcnf_ctrl),
                    self.configure_smbus_and_led(extcnf_ctrl),
                    more,
                ),
    {
        broadcast use {group_resumes, Run::law_copy_smbus_address_resumes};

        self.lemma_start();
        reveal(Run::configure_smbus_and_led);
    }

    proof fn lemma_apply_config_entries_continues(
        self,
        word: int,
        i: int,
        count: int,
        page: u16,
        data: u16,
        addr: u16,
    )
        ensures
            self.apply_config_entries(word, i, count, page, data, addr).0.continues(self),
        decreases count - i,
    {
        broadcast use group_resumes;

        self.lemma_start();
        if i < count {
            let (s, _, d) = self.nvm_read_word((word + i * 2) as u16, data);
            let (s, _, a) = s.nvm_read_word((word + i * 2 + 1) as u16, addr);
            s.lemma_apply_config_entries_continues(word, i + 1, count, d, d, a);
            let reg = (a & PHY_REG_MASK) | page;
            let (s, _) = s.phy_write_reg_locked(reg as u32, d);
            s.lemma_apply_config_entries_continues(word, i + 1, count, page, d, reg);
        }
    }

    /// `apply_config_entries` only adds to a run, and resumes with more answers.
    pub broadcast proof fn law_apply_config_entries_resumes(
        self,
        word: int,
        i: int,
        count: int,
        page: u16,
        data: u16,
        addr: u16,
    )
        ensures
            (#[trigger] self.apply_config_entries(word, i, count, page, data, addr)).0.continues(self),
            forall|more: Seq<Reply>|
                agree(
                    #[trigger] self.fed(more).apply_config_entries(word, i, count, page, data, addr),
                    self.apply_config_entries(word, i, count, page, data, addr),
                    more,
                ),
        decreases count - i,
    {
        broadcast use group_resumes;

        self.lemma_start();
        self.lemma_apply_config_entries_continues(word, i, count, page, data, addr);
        assert forall|more: Seq<Reply>|
            agree(
                #[trigger] self.fed(more).apply_config_entries(word, i, count, page, data, addr),
                self.apply_config_entries(word, i, count, page, data, addr),
                more,
            ) by {
            if i < count {
                let fed = self.fed(more);
                let (s, _, d) = self.nvm_read_word((word + i * 2) as u16, data);
                let (s, _, a) = s.nvm_read_word((word + i * 2 + 1) as u16, addr);
                s.law_apply_config_entries_resumes(word, i + 1, count, d, d, a);
                let reg = (a & PHY_REG_MASK) | page;
                let (s, _) = s.phy_write_reg_locked(reg as u32, d);
                s.law_apply_config_entries_resumes(word, i + 1, count, page, d, reg);
                let (s, _, d) = fed.nvm_read_word((word + i * 2) as u16, data);
                let (s, _, a) = s.nvm_read_word((word + i * 2 + 1) as u16, addr);
                s.lemma_apply_config_entries_continues(word, i + 1, count, d, d, a);
                let reg = (a & PHY_REG_MASK) | page;
                let (s, _) = s.phy_write_reg_locked(reg as u32, d);
                s.lemma_apply_config_entries_continues(word, i + 1, count, page, d, reg);
            }
        }
    }

    /// `apply_extended_config` only adds to a run, and resumes with more answers.
    pub broadcast proof fn law_apply_extended_config_resumes(self, sw_config: u32)
        ensures
            (#[trigger] self.apply_extended_config(sw_config)).0.continues(self),
            forall|more: Seq<Reply>|
                agree(
                    #[trigger] self.fed(more).apply_extended_config(sw_config),
                    self.apply_extended_config(sw_config),
                    more,
                ),
    {
        broadcast use {
            group_resumes,
            Run::law_configure_smbus_and_led_resumes,
            Run::law_apply_config_entries_resumes,
        };

        self.lemma_start();
        reveal(Run::apply_extended_config);
    }

    /// `sw_lcd_config` only adds to a run, and resumes with more answers.
    pub broadcast proof fn law_sw_lcd_config_resumes(self)
        ensures
            (#[trigger] self.sw_lcd_config()).0.continues(self),
            forall|more: Seq<Reply>|
                agree(#[trigger] self.fed(more).sw_lcd_config(), self.sw_lcd_config(), more),
    {
        broadcast use {group_resumes, Run::law_apply_extended_config_resumes};

        self.lemma_start();
        reveal(Run::sw_lcd_config);
    }

    /// `apply_oem_bits` only adds to a run, and resumes with more answers.
    pub broadcast proof fn law_apply_oem_bits_resumes(self, d0_state: bool)
        ensures
            (#[trigger] self.apply_oem_bits(d0_state)).0.continues(self),
            forall|more: Seq<Reply>|
                agree(
                    #[trigger] self.fed(more).apply_oem_bits(d0_state),
                    self.apply_oem_bits(d0_state),
                    more,
                ),
    {
        broadcast use group_resumes;

        self.lemma_start();
        reveal(Run::apply_oem_bits);
    }

    /// `oem_bits_by_software` only adds to a run, and resumes with more answers.
    pub broadcast proof fn law_oem_bits_by_software_resumes(self)
        ensures
            (#[trigger] self.oem_bits_by_software()).0.continues(self),
            forall|more: Seq<Reply>|
                agree(
                    #[trigger] self.fed(more).oem_bits_by_software(),
                    self.oem_bits_by_software(),
                    more,
                ),
    {
        broadcast use group_resumes;

        self.lemma_start();
        reveal(Run::oem_bits_by_software);
    }

    /// `oem_bits_config` only adds to a run, and resumes with more answers.
    pub broadcast proof fn law_oem_bits_config_resumes(self, d0_state: bool)
        ensures
            (#[trigger] self.oem_bits_config(d0_state)).0.continues(self),
            forall|more: Seq<Reply>|
                agree(
                    #[trigger] self.fed(more).oem_bits_config(d0_state),
                    self.oem_bits_config(d0_state),
                    more,
                ),
    {
        broadcast use {
            group_resumes,
            Run::law_oem_bits_by_software_resumes,
            Run::law_apply_oem_bits_resumes,
        };

        self.lemma_start();
        reveal(Run::oem_bits_config);
    }

    /// `lv_phy_workarounds` only adds to a run, and resumes with more answers.
    pub broadcast proof fn law_lv_phy_workarounds_resumes(self)
        ensures
            (#[trigger] self.lv_phy_workarounds()).0.continues(self),
            forall|more: Seq<Reply>|
                agree(
                    #[trigger] self.fed(more).lv_phy_workarounds(),
                    self.lv_phy_workarounds(),
                    more,
                ),
    {
        broadcast use {group_resumes, Run::law_write_emi_resumes};

        self.lemma_start();
        reveal(Run::lv_phy_workarounds);
    }

    /// `reset_workarounds` only adds to a run, and resumes with more answers.
    pub broadcast proof fn law_reset_workarounds_resumes(self)
        ensures
            (#[trigger] self.reset_workarounds()).0.continues(self),
            forall|more: Seq<Reply>|
                agree(
                    #[trigger] self.fed(more).reset_workarounds(),
                    self.reset_workarounds(),
                    more,
                ),
    {
        broadcast use {group_resumes, Run::law_lv_phy_workarounds_resumes};

        self.lemma_start();
        reveal(Run::reset_workarounds);
    }

    /// `clear_host_wakeup` only adds to a run, and resumes with more answers.
    pub broadcast proof fn law_clear_host_wakeup_resumes(self)
        ensures
            (#[trigger] self.clear_host_wakeup()).continues(self),
            forall|more: Seq<Reply>|
                (#[trigger] self.fed(more).clear_host_wakeup()).resumes(
                    self.clear_host_wakeup(),
                    more,
                ),
    {
        broadcast use group_resumes;

        self.lemma_start();
        reveal(Run::clear_host_wakeup);
    }

    /// `ungate_if_unmanaged` only adds to a run, and resumes with more answers.
    pub broadcast proof fn law_ungate_if_unmanaged_resumes(self)
        ensures
            (#[trigger] self.ungate_if_unmanaged()).continues(self),
            forall|more: Seq<Reply>|
                (#[trigger] self.fed(more).ungate_if_unmanaged()).resumes(
                    self.ungate_if_unmanaged(),
                    more,
                ),
    {
        broadcast use {group_resumes, Run::law_gate_phy_config_resumes};

        self.lemma_start();
        reveal(Run::ungate_if_unmanaged);
    }

    /// `gate_if_unmanaged` only adds to a run, and resumes with more answers.
    pub broadcast proof fn law_gate_if_unmanaged_resumes(self)
        ensures
            (#[trigger] self.gate_if_unmanaged()).continues(self),
            forall|more: Seq<Reply>|
                (#[trigger] self.fed(more).gate_if_unmanaged()).resumes(
                    self.gate_if_unmanaged(),
                    more,
                ),
    {
        broadcast use {group_resumes, Run::law_gate_phy_config_resumes};

        self.lemma_start();
        reveal(Run::gate_if_unmanaged);
    }

    /// `set_lpi_timer` only adds to a run, and resumes with more answers.
    pub broadcast proof fn law_set_lpi_timer_resumes(self)
        ensures
            (#[trigger] self.set_lpi_timer()).0.continues(self),
            forall|more: Seq<Reply>|
                agree(#[trigger] self.fed(more).set_lpi_timer(), self.set_lpi_timer(), more),
    {
        broadcast use {group_resumes, Run::law_write_emi_resumes};

        self.lemma_start();
        reveal(Run::set_lpi_timer);
    }

    /// `post_phy_reset` only adds to a run, and resumes with more answers.
    pub broadcast proof fn law_post_phy_reset_resumes(self)
        ensures
            (#[trigger] self.post_phy_reset()).0.continues(self),
            forall|more: Seq<Reply>|
                agree(#[trigger] self.fed(more).post_phy_reset(), self.post_phy_reset(), more),
    {
        broadcast use {
            group_resumes,
            Run::law_reset_workarounds_resumes,
            Run::law_clear_host_wakeup_resumes,
            Run::law_sw_lcd_config_resumes,
            Run::law_oem_bits_config_resumes,
            Run::law_ungate_if_unmanaged_resumes,
            Run::law_set_lpi_timer_resumes,
        };

        self.lemma_start();
        reveal(Run::post_phy_reset);
    }

    /// `phy_hw_reset` only adds to a run, and resumes with more answers.
    pub broadcast proof fn law_phy_hw_reset_resumes(self)
        ensures
            (#[trigger] self.phy_hw_reset()).0.continues(self),
            forall|more: Seq<Reply>|
                agree(#[trigger] self.fed(more).phy_hw_reset(), self.phy_hw_reset(), more),
    {
        broadcast use {
            group_resumes,
            Run::law_gate_if_unmanaged_resumes,
            Run::law_post_phy_reset_resumes,
        };

        self.lemma_start();
        reveal(Run::phy_hw_reset);
    }

    /// `clear_phy_reset_asserted` only adds to a run, and resumes with more answers.
    pub broadcast proof fn law_clear_phy_reset_asserted_resumes(self)
        ensures
            (#[trigger] self.clear_phy_reset_asserted()).continues(self),
            forall|more: Seq<Reply>|
                (#[trigger] self.fed(more).clear_phy_reset_asserted()).resumes(
                    self.clear_phy_reset_asserted(),
                    more,
                ),
    {
        broadcast use group_resumes;

        self.lemma_start();
        reveal(Run::clear_phy_reset_asserted);
    }

    /// `require_configuration` only adds to a run, and resumes with more answers.
    pub broadcast proof fn law_require_configuration_resumes(self)
        ensures
            (#[trigger] self.require_configuration()).0.continues(self),
            forall|more: Seq<Reply>|
                agree(
                    #[trigger] self.fed(more).require_configuration(),
                    self.require_configuration(),
                    more,
                ),
    {
        broadcast use {group_resumes, Run::law_detect_bank_resumes};

        self.lemma_start();
        reveal(Run::require_configuration);
    }

    /// `get_cfg_done` only adds to a run, and resumes with more answers.
    pub broadcast proof fn law_get_cfg_done_resumes(self)
        ensures
            (#[trigger] self.get_cfg_done()).0.continues(self),
            forall|more: Seq<Reply>|
                agree(#[trigger] self.fed(more).get_cfg_done(), self.get_cfg_done(), more),
    {
        broadcast use {
            group_resumes,
            Run::law_lan_init_done_resumes,
            Run::law_clear_phy_reset_asserted_resumes,
            Run::law_require_configuration_resumes,
        };

        self.lemma_start();
        reveal(Run::get_cfg_done);
    }
}

} // verus!
