//! The application's event decisions: what a button press changes and which
//! messages go out.  The event loop, the device channel, and the actual
//! sending stay with the caller; this module only decides.

use vstd::prelude::*;

verus! {

/// The highest brightness step the device accepts.
pub const MAX_BRIGHTNESS: u8 = 10;

/// Key code of the button that steps the brightness down.
pub const BRIGHTNESS_DOWN_BUTTON: u8 = 0;

/// Key code of the button that steps the brightness up.
pub const BRIGHTNESS_UP_BUTTON: u8 = 40;

/// What an outbound message asks the device to do.
pub enum MessageBody {
    /// Draw a full-screen frame from packed 16-bit pixels.
    DrawScreen(Vec<u8>),
    /// Draw a per-button image on the named button.
    DrawButton(u8, Vec<u8>),
    /// Set the backlight brightness step.
    SetBrightness(u8),
}

/// One message for the downstream device, tagged with its transaction id.
pub struct Message {
    pub body: MessageBody,
    pub tx_id: u64,
}

/// The application state the event decisions read and update.
pub struct MyApp {
    /// The full-screen image drawn in response to a button press.
    pub test_image: Vec<u8>,
    /// The image drawn onto the pressed button itself.
    pub test_button_image: Vec<u8>,
    /// The current backlight brightness step.
    pub current_brightness: u8,
}

impl MyApp {
    /// The brightness step never leaves the device's range.
    pub open spec fn wf(self) -> bool {
        self.current_brightness <= MAX_BRIGHTNESS
    }

    /// A fresh application at full brightness.
    pub fn new(test_image: Vec<u8>, test_button_image: Vec<u8>) -> (app: Self)
        ensures
            app.wf(),
            app.current_brightness == MAX_BRIGHTNESS,
            app.test_image == test_image,
            app.test_button_image == test_button_image,
    {
        MyApp { test_image, test_button_image, current_brightness: MAX_BRIGHTNESS }
    }

    /// Decides the response to a button going down.  The brightness buttons
    /// step the brightness, clamped to `[0, MAX_BRIGHTNESS]`, and queue the
    /// new value first; every press then queues the full-screen image and the
    /// button image, under consecutive transaction ids.  A button going up,
    /// and every other event, decides nothing.
    pub fn on_button_down(&mut self, tx_id: u64, button: u8) -> (msgs: Vec<Message>)
        requires
            old(self).wf(),
            tx_id + 2 <= u64::MAX,
        ensures
            final(self).wf(),
            final(self).test_image == old(self).test_image,
            final(self).test_button_image == old(self).test_button_image,
            button == BRIGHTNESS_DOWN_BUTTON ==> final(self).current_brightness == (
            if old(self).current_brightness > 0 {
                old(self).current_brightness - 1
            } else {
                0int
            }),
            button == BRIGHTNESS_UP_BUTTON ==> final(self).current_brightness == (
            if old(self).current_brightness < MAX_BRIGHTNESS {
                old(self).current_brightness + 1
            } else {
                MAX_BRIGHTNESS as int
            }),
            button != BRIGHTNESS_DOWN_BUTTON && button != BRIGHTNESS_UP_BUTTON
                ==> final(self).current_brightness == old(self).current_brightness,
            ({
                let adjusts = button == BRIGHTNESS_DOWN_BUTTON || button == BRIGHTNESS_UP_BUTTON;
                let k: int = if adjusts {
                    1int
                } else {
                    0int
                };
                &&& msgs@.len() == k + 2
                &&& (adjusts ==> (msgs@[0].body matches MessageBody::SetBrightness(b)
                    && b == final(self).current_brightness) && msgs@[0].tx_id == tx_id + 1)
                &&& (msgs@[k].body matches MessageBody::DrawScreen(img)
                    && img@ == old(self).test_image@)
                &&& msgs@[k].tx_id == tx_id + 1
                &&& (msgs@[k + 1].body matches MessageBody::DrawButton(b, img) && b == button && img@
                    == old(self).test_button_image@)
                &&& msgs@[k + 1].tx_id == tx_id + 2
            }),
    {
        let mut msgs: Vec<Message> = Vec::new();
        if button == BRIGHTNESS_DOWN_BUTTON {
            self.current_brightness = if self.current_brightness > 0 {
                self.current_brightness - 1
            } else {
                0
            };
            msgs.push(
                Message { body: MessageBody::SetBrightness(self.current_brightness), tx_id: tx_id + 1 },
            );
        } else if button == BRIGHTNESS_UP_BUTTON {
            self.current_brightness = if self.current_brightness < MAX_BRIGHTNESS {
                self.current_brightness + 1
            } else {
                MAX_BRIGHTNESS
            };
            msgs.push(
                Message { body: MessageBody::SetBrightness(self.current_brightness), tx_id: tx_id + 1 },
            );
        }
        msgs.push(
            Message { body: MessageBody::DrawScreen(self.test_image.clone()), tx_id: tx_id + 1 },
        );
        msgs.push(
            Message {
                body: MessageBody::DrawButton(button, self.test_button_image.clone()),
                tx_id: tx_id + 2,
            },
        );
        msgs
    }
}

} // verus!
