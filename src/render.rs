use vstd::prelude::*;
use crate::sessions::FlashSlot;

verus! {

/// The markup of a flash message: `<p><i>` message `</i></p>`, or nothing.
pub open spec fn flash_markup(message: Option<Seq<char>>) -> Seq<char> {
    match message {
        Some(m) => "<p><i>"@ + m + "</i></p>"@,
        None => Seq::empty(),
    }
}

/// Renders the flash message of the previous redirect and clears it, so
/// that it is shown once.
pub fn render_flash(flash: &mut FlashSlot) -> (r: String)
    ensures
        r@ == flash_markup(old(flash)@),
        final(flash)@ is None,
{
    match flash.take_flash() {
        Some(m) => String::from_str("<p><i>").concat(m.as_str()).concat("</i></p>"),
        None => String::new(),
    }
}

} // verus!
