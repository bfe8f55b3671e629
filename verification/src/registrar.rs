//! Registering a font with an egui rendering context.
//!
//! The registration policy — the new name first in both families, with
//! everything configured before it kept behind it — is verified over
//! `FontTable` in `table`. A context's own font configuration cannot be
//! read back through egui's interface, so the context entry point hands
//! the same insertion to egui's incremental `add_font`, which applies that
//! policy to the context's current configuration; a caller who wants the
//! verified table instead threads one through `custom_font_table`.

use vstd::prelude::*;

use crate::table::FontTable;
use crate::table::registered;

verus! {

#[verifier::external_type_specification]
#[verifier::external_body]
pub struct ExContext(egui::Context);

/// The name a caller-supplied font is registered under: the given one, or
/// "chinese" when none is given.
pub open spec fn chosen_font_name(font_name: Option<&str>) -> Seq<char> {
    match font_name {
        Option::Some(s) => s@,
        Option::None => "chinese"@,
    }
}

/// The registry name `font_name` picks.
fn choose_name<'a>(font_name: Option<&'a str>) -> (r: &'a str)
    ensures
        r@ == chosen_font_name(font_name),
{
    match font_name {
        Option::Some(s) => s,
        Option::None => "chinese",
    }
}

/// Relies on egui::Context::add_font: registers `bytes` under `name` in the
/// context's current font configuration, keeping every font already
/// installed, and puts `name` first in both the proportional and the
/// monospace family (`FontPriority::Highest`). Takes effect at the start of
/// the context's next pass; a name the context's active fonts already hold
/// is left as it is.
#[verifier::external_body]
fn add_font_first(ctx: &egui::Context, name: &str, bytes: Vec<u8>) {
    let families = vec![
        egui::epaint::text::InsertFontFamily {
            family: egui::FontFamily::Proportional,
            priority: egui::epaint::text::FontPriority::Highest,
        },
        egui::epaint::text::InsertFontFamily {
            family: egui::FontFamily::Monospace,
            priority: egui::epaint::text::FontPriority::Highest,
        },
    ];
    ctx.add_font(
        egui::epaint::text::FontInsert::new(name, egui::FontData::from_owned(bytes), families),
    );
}

/// `base` with `font_data` registered under the chosen name: the name maps
/// to the bytes in the registry and stands first in both families, with
/// everything `base` held behind it.
pub fn custom_font_table(base: FontTable, font_data: Vec<u8>, font_name: Option<&str>) -> (t:
    FontTable)
    ensures
        registered(base, t, chosen_font_name(font_name), font_data@),
{
    let name = choose_name(font_name);
    let mut table = base;
    table.register_font(name, font_data);
    table
}

/// Install caller-supplied font bytes into `ctx` under `font_name`
/// (default "chinese"), as the first choice of both the proportional and
/// the monospace family; everything configured on `ctx` before the call,
/// an earlier call of this function included, stays behind the new name.
/// Performs no I/O and cannot fail; `ctx` picks the configuration up on
/// its next pass.
pub fn setup_custom_chinese_font(ctx: &egui::Context, font_data: Vec<u8>, font_name: Option<&str>) {
    let name = choose_name(font_name);
    add_font_first(ctx, name, font_data);
}

} // verus!
