//! The program configuration, and the default configuration text.

use vstd::prelude::*;

verus! {

use crate::{AMOUNT_LIMIT, RATE_SCALE};
use vstd::string::StringExecFns;

/// Whether a fixed-point amount is within the range the price arithmetic
/// supports.
pub open spec fn amount_ok(a: int) -> bool {
    -AMOUNT_LIMIT <= a <= AMOUNT_LIMIT
}

/// The program configuration, immutable for the lifetime of one run.
///
/// Fees are fixed-point amounts (thousandths of the currency unit); `vat` is a
/// fixed-point rate (parts per `RATE_SCALE`).
#[derive(Clone, Debug)]
pub struct Config {
    pub api: String,
    pub area: String,
    pub currency: String,
    pub interval: u64,
    pub webui_port: u64,
    pub webui_toggle: bool,
    pub grid_fee: i64,
    pub energy_tax: i64,
    pub variable_costs: i64,
    pub spot_fee: i64,
    pub cert_fee: i64,
    pub vat: i64,
    pub telldus_ip: String,
    pub telldus_token: String,
}

impl Config {
    /// Every fee within the supported amount range, and the VAT rate within
    /// `[0, 1]` as a fraction.
    pub open spec fn wf(self) -> bool {
        &&& amount_ok(self.grid_fee as int)
        &&& amount_ok(self.energy_tax as int)
        &&& amount_ok(self.variable_costs as int)
        &&& amount_ok(self.spot_fee as int)
        &&& amount_ok(self.cert_fee as int)
        &&& 0 <= self.vat <= RATE_SCALE
    }
}

/// The text of the default configuration file.
pub open spec fn default_config_text() -> Seq<char> {
    "# pricecontrol configuration.\n# Amounts are in the configured currency per kWh; rates are fractions.\n\napi = \"https://www.elprisetjustnu.se/api/v1/prices/\"\narea = \"SE3\"\ncurrency = \"SEK\"\ninterval = 300\nwebui_port = 8080\nwebui_toggle = false\n\ngrid_fee = 0.25\nenergy_tax = 0.439\nvariable_costs = 0.05\nspot_fee = 0.03\ncert_fee = 0.01\nvat = 0.25\n\ntelldus_ip = \"\"\ntelldus_token = \"\"\n\n[[device]]\nname = \"heater\"\nmode = \"Price\"\nprice = 1.0\n\n[[device]]\nname = \"boiler\"\nmode = \"Ratio\"\nratio = 0.5\n"@
}

/// Generate the text of a default configuration file, for the caller to
/// write out as `pricecontrol.toml` (without overwriting an existing one).
pub fn generate_config() -> (r: String)
    ensures
        r@ == default_config_text(),
{
    String::from_str(
        "# pricecontrol configuration.\n# Amounts are in the configured currency per kWh; rates are fractions.\n\napi = \"https://www.elprisetjustnu.se/api/v1/prices/\"\narea = \"SE3\"\ncurrency = \"SEK\"\ninterval = 300\nwebui_port = 8080\nwebui_toggle = false\n\ngrid_fee = 0.25\nenergy_tax = 0.439\nvariable_costs = 0.05\nspot_fee = 0.03\ncert_fee = 0.01\nvat = 0.25\n\ntelldus_ip = \"\"\ntelldus_token = \"\"\n\n[[device]]\nname = \"heater\"\nmode = \"Price\"\nprice = 1.0\n\n[[device]]\nname = \"boiler\"\nmode = \"Ratio\"\nratio = 0.5\n",
    )
}

} // verus!
