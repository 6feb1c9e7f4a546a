//! The driver and its operating modes.

use vstd::prelude::*;

use crate::command::{encoded, Code, Command};
use crate::display_specs::DisplaySpecs;
use crate::flush::{viewed, PageUpdate};
use crate::page_buffer::{lemma_set_pixel_idempotent, BufferView, GraphicsPageBuffer};
use crate::types::{Pixel, StaticIndicatorMode};

verus! {

/// Marks the types that stand for a live connection to the display.
///
/// The driver computes what is to be sent and leaves the sending to the
/// owner of the connection. The unit type, which a released driver holds in
/// place of its interface, is no connection.
pub trait DisplayInterface {

}

/// The mode in which a driver starts. It exists to enter one of the
/// others.
pub struct InitialMode;

/// Raw mode provides functionality to control the ST7565 chip directly
/// through low-level commands.
pub struct RawMode;

/// In this mode, the driver keeps a frame buffer that is drawn into pixel
/// by pixel and flushed to the display page by page.
pub struct GraphicsMode {
    page_buffers: GraphicsPageBuffer,
}

impl GraphicsMode {
    /// The frame buffer.
    pub closed spec fn view(&self) -> BufferView {
        self.page_buffers@
    }

    /// Initialize GraphicsMode with a page buffer.
    pub(crate) fn new(page_buffers: GraphicsPageBuffer) -> (mode: Self)
        ensures
            mode@ == page_buffers@.all_dirty(),
            mode@.wf(),
    {
        let mut page_buffers = page_buffers;
        page_buffers.mark_dirty();
        Self { page_buffers }
    }
}

/// The actual driver
pub struct ST7565<DI, MODE> {
    interface: DI,
    display_specs: DisplaySpecs,
    mode: MODE,
}

impl<DI, MODE> ST7565<DI, MODE> {
    /// The interface that the driver holds.
    pub closed spec fn interface(&self) -> DI {
        self.interface
    }

    /// The specification of the display.
    pub closed spec fn specs(&self) -> DisplaySpecs {
        self.display_specs
    }

    /// The mode of the driver.
    pub closed spec fn mode(&self) -> MODE {
        self.mode
    }
}

/// ---- Functionality of the initial mode ----
/// ===========================================
///
/// This mode is purely to transition into other modes.
impl<DI: DisplayInterface> ST7565<DI, InitialMode> {
    /// Creates an ST7565 driver.
    pub fn new(interface: DI, display_specs: DisplaySpecs) -> (driver: Self)
        ensures
            driver.interface() == interface,
            driver.specs() == display_specs,
    {
        Self { interface, display_specs, mode: InitialMode }
    }

    fn into_mode<MODE>(self, mode: MODE) -> (driver: ST7565<DI, MODE>)
        ensures
            driver.interface() == self.interface(),
            driver.specs() == self.specs(),
            driver.mode() == mode,
    {
        ST7565 { interface: self.interface, display_specs: self.display_specs, mode }
    }

    /// Transitions the driver into raw mode.
    ///
    /// Raw mode provides functionality to control the ST7565 chip directly
    /// through low-level commands.
    pub fn into_raw_mode(self) -> (driver: ST7565<DI, RawMode>)
        ensures
            driver.interface() == self.interface(),
            driver.specs() == self.specs(),
    {
        self.into_mode(RawMode)
    }

    /// Transitions the driver into graphics mode.
    ///
    /// The driver takes the buffer over and marks all of it dirty, so that
    /// the first flush transmits every page. A buffer made by
    /// [`GraphicsPageBuffer::for_display`] from the specification of the
    /// display holds every pixel of the display; of a smaller one, the
    /// driver ignores the pixels that the buffer does not have.
    pub fn into_graphics_mode(self, buffer: GraphicsPageBuffer) -> (driver: ST7565<
        DI,
        GraphicsMode,
    >)
        ensures
            driver.interface() == self.interface(),
            driver.specs() == self.specs(),
            driver.mode()@ == buffer@.all_dirty(),
            driver.mode()@.wf(),
    {
        self.into_mode(GraphicsMode::new(buffer))
    }
}

/// One step of the reset sequence.
#[derive(Debug, Copy, Clone, PartialEq, Eq, Structural)]
pub enum ResetStep {
    /// Drive the reset line low.
    ResetLow,
    /// Drive the reset line high.
    ResetHigh,
    /// Wait for at least this many milliseconds.
    DelayMs(u32),
    /// Send this code on the command channel.
    Command(Code),
}

/// The steps that reset a display and restore the settings in `specs`, in
/// the order in which they are carried out.
pub open spec fn reset_sequence(specs: DisplaySpecs) -> Seq<ResetStep> {
    seq![
        ResetStep::ResetLow,
        ResetStep::DelayMs(1),
        ResetStep::ResetHigh,
        ResetStep::DelayMs(1),
        ResetStep::Command(encoded(Command::LcdBiasSet { bias_mode_1: specs.bias_mode_1 })),
        ResetStep::Command(encoded(Command::AdcSelect { reverse: specs.flip_columns })),
        ResetStep::Command(encoded(Command::CommonOutputModeSelect { reverse: specs.flip_rows })),
        ResetStep::Command(encoded(Command::DisplayNormalReverse { reverse: specs.inverted })),
        ResetStep::Command(encoded(Command::BoosterRatioSet { stepup_value: specs.booster_ratio })),
        ResetStep::Command(
            encoded(
                Command::VoltageRegulatorInternalResistorSet {
                    resistor_ratio: specs.voltage_regulator_resistor_ratio,
                },
            ),
        ),
        ResetStep::Command(
            encoded(Command::ElectronicVolumeSet { volume_value: specs.electronic_volume }),
        ),
        ResetStep::Command(encoded(Command::PowerControlSet { mode: specs.power_control })),
        ResetStep::Command(encoded(Command::DisplayStartLineSet { address: 0 })),
    ]
}

/// ---- Common functionality for all modes ----
/// ============================================
impl<DI: DisplayInterface, MODE> ST7565<DI, MODE> {
    /// The interface that the driver holds, for sending what the driver
    /// hands out.
    pub fn interface_mut(&mut self) -> (interface: &mut DI)
        ensures
            *interface == old(self).interface(),
            final(self).interface() == *final(interface),
            final(self).specs() == old(self).specs(),
            final(self).mode() == old(self).mode(),
    {
        &mut self.interface
    }

    /// The code that sets the static indicator.
    pub fn set_static_indicator(&self, mode: Option<StaticIndicatorMode>) -> (code: Code)
        ensures
            code == encoded(Command::StaticIndicatorSet { mode }),
    {
        Command::StaticIndicatorSet { mode }.encode()
    }

    /// The code that sets the line offset, effectively scrolling the
    /// display through memory.
    pub fn set_line_offset(&self, offset: u8) -> (code: Code)
        ensures
            code == encoded(Command::DisplayStartLineSet { address: offset }),
    {
        Command::DisplayStartLineSet { address: offset }.encode()
    }

    /// The code that sets whether the pixels should be inverted.
    pub fn set_inverted(&self, inverted: bool) -> (code: Code)
        ensures
            code == encoded(Command::DisplayNormalReverse { reverse: inverted }),
    {
        Command::DisplayNormalReverse { reverse: inverted }.encode()
    }

    /// The code that displays all points of the display.
    pub fn display_all_points(&self, enable: bool) -> (code: Code)
        ensures
            code == encoded(Command::DisplayAllPoints { on: enable }),
    {
        Command::DisplayAllPoints { on: enable }.encode()
    }

    /// The code that enables or disables the display output.
    pub fn set_display_on(&self, on: bool) -> (code: Code)
        ensures
            code == encoded(Command::DisplayOnOff { on }),
    {
        Command::DisplayOnOff { on }.encode()
    }

    /// The steps that reset the display and restore all settings. They are
    /// carried out in order; the first that fails ends the reset.
    pub fn reset(&self) -> (steps: Vec<ResetStep>)
        ensures
            steps@ == reset_sequence(self.specs()),
    {
        let specs = &self.display_specs;
        let mut steps: Vec<ResetStep> = Vec::new();
        steps.push(ResetStep::ResetLow);
        steps.push(ResetStep::DelayMs(1));
        steps.push(ResetStep::ResetHigh);
        steps.push(ResetStep::DelayMs(1));
        steps.push(ResetStep::Command(Command::LcdBiasSet { bias_mode_1: specs.bias_mode_1 }.encode()));
        steps.push(ResetStep::Command(Command::AdcSelect { reverse: specs.flip_columns }.encode()));
        steps.push(
            ResetStep::Command(Command::CommonOutputModeSelect { reverse: specs.flip_rows }.encode()),
        );
        steps.push(
            ResetStep::Command(Command::DisplayNormalReverse { reverse: specs.inverted }.encode()),
        );
        steps.push(
            ResetStep::Command(Command::BoosterRatioSet { stepup_value: specs.booster_ratio }.encode()),
        );
        steps.push(
            ResetStep::Command(
                Command::VoltageRegulatorInternalResistorSet {
                    resistor_ratio: specs.voltage_regulator_resistor_ratio,
                }.encode(),
            ),
        );
        steps.push(
            ResetStep::Command(
                Command::ElectronicVolumeSet { volume_value: specs.electronic_volume }.encode(),
            ),
        );
        steps.push(
            ResetStep::Command(Command::PowerControlSet { mode: specs.power_control }.encode()),
        );
        steps.push(ResetStep::Command(Command::DisplayStartLineSet { address: 0 }.encode()));
        assert(steps@ =~= reset_sequence(self.specs()));
        steps
    }
}

/// ---- Functionality of the raw mode ----
/// =======================================
///
/// This mode exists for interacting with the ST7565 chip via direct low level commands.
impl<DI: DisplayInterface> ST7565<DI, RawMode> {
    /// The code that sets the page to write into.
    pub fn set_page(&self, page: u8) -> (code: Code)
        ensures
            code == encoded(Command::PageAddressSet { address: page }),
    {
        Command::PageAddressSet { address: page }.encode()
    }

    /// The code that sets the column to write into.
    pub fn set_column(&self, address: u8) -> (code: Code)
        ensures
            code == encoded(Command::ColumnAddressSet { address }),
    {
        Command::ColumnAddressSet { address }.encode()
    }

    /// The code that sets the adc direction.
    ///
    /// Effectively flips the display horizontally.
    pub fn adc_select(&self, reverse: bool) -> (code: Code)
        ensures
            code == encoded(Command::AdcSelect { reverse }),
    {
        Command::AdcSelect { reverse }.encode()
    }

    /// The code that sets the common mode direction.
    ///
    /// Effectively flips the display vertically.
    pub fn common_output_mode_select(&self, reverse: bool) -> (code: Code)
        ensures
            code == encoded(Command::CommonOutputModeSelect { reverse }),
    {
        Command::CommonOutputModeSelect { reverse }.encode()
    }
}

/// The buffer after one pixel event: a pixel on the display is written, any
/// other is ignored.
pub open spec fn drawn(buffer: BufferView, specs: DisplaySpecs, pixel: Pixel) -> BufferView {
    if specs.shows(pixel.x as int, pixel.y as int) {
        buffer.set_pixel(pixel.x as int, pixel.y as int, pixel.on)
    } else {
        buffer
    }
}

/// The buffer after a sequence of pixel events, taken first to last.
pub open spec fn drawn_all(buffer: BufferView, specs: DisplaySpecs, pixels: Seq<Pixel>) -> BufferView
    decreases pixels.len(),
{
    if pixels.len() == 0 {
        buffer
    } else {
        drawn(drawn_all(buffer, specs, pixels.drop_last()), specs, pixels.last())
    }
}

/// A pixel event that lies off the display changes nothing, and one that
/// repeats the event before it changes nothing more.
pub proof fn lemma_drawn_again(buffer: BufferView, specs: DisplaySpecs, pixel: Pixel)
    requires
        buffer.wf(),
    ensures
        !specs.shows(pixel.x as int, pixel.y as int) ==> drawn(buffer, specs, pixel) == buffer,
        drawn(drawn(buffer, specs, pixel), specs, pixel) == drawn(buffer, specs, pixel),
{
    lemma_set_pixel_idempotent(buffer, pixel.x as int, pixel.y as int, pixel.on);
}

/// ---- Functionality of the graphics mode ----
/// ============================================
///
/// Drawing needs no connection to the display: it is available whether or
/// not the interface is attached.
impl<DI> ST7565<DI, GraphicsMode> {
    /// The frame buffer.
    pub open spec fn buffer(&self) -> BufferView {
        self.mode()@
    }

    /// Ends the graphics mode and hands the frame buffer back, with its
    /// pixels and dirty ranges as they are, for use with another driver.
    pub fn into_buffer(self) -> (buffer: GraphicsPageBuffer)
        ensures
            buffer@ == self.buffer(),
            buffer@.wf(),
    {
        proof {
            use_type_invariant(&self.mode.page_buffers);
        }
        self.mode.page_buffers
    }

    /// The width and height of the display in pixels.
    pub fn size(&self) -> (size: (usize, usize))
        ensures
            size == (self.specs().width, self.specs().height),
    {
        (self.display_specs.width, self.display_specs.height)
    }

    /// Marks the entire frame buffer as dirty, causing a full
    /// retransmission of all data at the next flush. This is for a display
    /// whose memory may have changed behind the driver's back.
    pub fn mark_dirty(&mut self)
        ensures
            final(self).buffer() == old(self).buffer().all_dirty(),
            final(self).buffer().wf(),
            final(self).specs() == old(self).specs(),
            final(self).interface() == old(self).interface(),
    {
        self.mode.page_buffers.mark_dirty();
    }

    /// Writes one pixel into the frame buffer. A position outside the
    /// display is ignored.
    pub fn set_pixel(&mut self, x: i32, y: i32, on: bool)
        ensures
            final(self).buffer() == drawn(old(self).buffer(), old(self).specs(), Pixel { x, y, on }),
            !old(self).specs().shows(x as int, y as int) ==> final(self).buffer() == old(
                self,
            ).buffer(),
            final(self).buffer().wf(),
            final(self).specs() == old(self).specs(),
            final(self).interface() == old(self).interface(),
    {
        proof {
            use_type_invariant(&self.mode.page_buffers);
        }
        if x < 0 || y < 0 || x as usize >= self.display_specs.width || y as usize
            >= self.display_specs.height {
            return ;
        }
        self.mode.page_buffers.set_pixel(x as usize, y as usize, on);
    }

    /// Writes the pixels into the frame buffer, first to last. Positions
    /// outside the display are ignored.
    pub fn draw_iter(&mut self, pixels: &[Pixel])
        ensures
            final(self).buffer() == drawn_all(old(self).buffer(), old(self).specs(), pixels@),
            final(self).buffer().wf(),
            final(self).specs() == old(self).specs(),
            final(self).interface() == old(self).interface(),
    {
        proof {
            use_type_invariant(&self.mode.page_buffers);
        }
        let mut i: usize = 0;
        while i < pixels.len()
            invariant
                i <= pixels@.len(),
                self.specs() == old(self).specs(),
                self.interface() == old(self).interface(),
                self.buffer() == drawn_all(old(self).buffer(), old(self).specs(), pixels@.take(i as int)),
                self.buffer().wf(),
            decreases pixels@.len() - i,
        {
            let pixel = pixels[i];
            self.set_pixel(pixel.x, pixel.y, pixel.on);
            assert(pixels@.take(i + 1).drop_last() =~= pixels@.take(i as int));
            i += 1;
        }
        assert(pixels@.take(i as int) =~= pixels@);
    }
}

/// ---- Functionality of the attached graphics mode ----
/// =====================================================
impl<DI: DisplayInterface> ST7565<DI, GraphicsMode> {
    /// Hands out the next update of a flush of the frame buffer to the
    /// screen: that of the lowest page that has changes. `None` says that
    /// the screen is up to date.
    ///
    /// The page of the update stays dirty until
    /// [`flush_sent`](Self::flush_sent) records that the update has
    /// arrived. A flush sends each update, records it, and asks for the
    /// next until `None` comes back. When sending fails the flush ends
    /// without recording the update: the page that failed and the pages
    /// behind it stay dirty, and the next flush sends them.
    pub fn flush_next(&mut self) -> (update: Option<PageUpdate>)
        ensures
            viewed(update) == old(self).buffer().next_update(old(self).specs().column_offset),
            final(self).buffer() == old(self).buffer().offered(),
            final(self).buffer().wf(),
            final(self).specs() == old(self).specs(),
            final(self).interface() == old(self).interface(),
    {
        self.mode.page_buffers.flush_next(self.display_specs.column_offset)
    }

    /// Records that the update of page `page` has arrived at the display:
    /// the changes of that page are forgotten. A page that the frame
    /// buffer does not have is ignored.
    pub fn flush_sent(&mut self, page: usize)
        ensures
            final(self).buffer() == old(self).buffer().sent(page as int),
            final(self).buffer().wf(),
            final(self).specs() == old(self).specs(),
            final(self).interface() == old(self).interface(),
    {
        self.mode.page_buffers.flush_sent(page);
    }

    /// Release the display interface object
    ///
    /// This is meant for situations where the display interface is shared between several devices.
    ///
    /// Nothing can be flushed until a display interface is attached again;
    /// drawing stays possible, and what is drawn is kept.
    ///
    /// Note that the interface attached later does not need to be the one
    /// returned by this function.
    pub fn release_display_interface(self) -> (released: (ST7565<(), GraphicsMode>, DI))
        ensures
            released.0.specs() == self.specs(),
            released.0.mode() == self.mode(),
            released.0.buffer().wf(),
            released.1 == self.interface(),
    {
        proof {
            use_type_invariant(&self.mode.page_buffers);
        }
        (ST7565 { interface: (), display_specs: self.display_specs, mode: self.mode }, self.interface)
    }
}

/// ---- Functionality of the detached graphics mode ----
/// =====================================================
///
/// In this mode the frame buffer can still be drawn into, but nothing can
/// be flushed until the display interface is attached again.
///
/// This makes it possible to share the bus with multiple devices.
impl ST7565<(), GraphicsMode> {
    /// Attach the display interface back to the driver
    pub fn attach_display_interface<DI: DisplayInterface>(self, interface: DI) -> (driver: ST7565<
        DI,
        GraphicsMode,
    >)
        ensures
            driver.interface() == interface,
            driver.specs() == self.specs(),
            driver.mode() == self.mode(),
            driver.buffer().wf(),
    {
        proof {
            use_type_invariant(&self.mode.page_buffers);
        }
        ST7565 { interface, display_specs: self.display_specs, mode: self.mode }
    }
}

} // verus!
