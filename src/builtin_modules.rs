//! The analysis modules every newly registered server is subscribed to.
use vstd::prelude::*;
use vstd::string::*;
use crate::object_store::digit_char;
use crate::text::str_equals;

verus! {

/// Whether a built-in module holds the high-signal checks or the subtle ones.
#[derive(Clone, Copy, PartialEq, Eq, Debug, Structural)]
pub enum BuiltinTier {
    Core,
    Advanced,
}

/// A built-in module as the service defines it.
pub struct BuiltinModuleDef {
    pub name: String,
    pub tier: BuiltinTier,
    pub default_port: u16,
    pub short_description: String,
    pub full_description: String,
    pub checks: Vec<String>,
}

/// A built-in module as listed to users, with its default address.
pub struct BuiltinModuleInfo {
    pub name: String,
    pub tier: BuiltinTier,
    pub default_port: u16,
    pub default_base_url: String,
    pub short_description: String,
    pub full_description: String,
    pub checks: Vec<String>,
}

/// `n` in decimal, without leading zeros.
pub open spec fn decimal(n: nat) -> Seq<char>
    decreases n,
{
    if n < 10 {
        seq![digit_char(n as int)]
    } else {
        decimal(n / 10).push(digit_char((n % 10) as int))
    }
}

pub(crate) fn decimal_text(n: u64) -> (r: String)
    ensures
        r@ == decimal(n as nat),
    decreases n,
{
    proof { reveal_strlit("0123456789"); }
    if n < 10 {
        let d = n as usize;
        let r = String::from_str("0123456789".substring_char(d, d + 1));
        assert(r@ =~= seq![digit_char(n as int)]);
        r
    } else {
        let head = decimal_text(n / 10);
        let d = (n % 10) as usize;
        let r = head.concat("0123456789".substring_char(d, d + 1));
        assert(r@ =~= decimal(n as nat));
        r
    }
}

/// `http://127.0.0.1:<port>`.
pub open spec fn base_url_for(port: u16) -> Seq<char> {
    "http://127.0.0.1:"@ + decimal(port as nat)
}

/// The loopback address at which a built-in module listens by default.
pub fn default_base_url(port: u16) -> (r: String)
    ensures
        r@ == base_url_for(port),
{
    String::from_str("http://127.0.0.1:").concat(decimal_text(port as u64).as_str())
}

/// The names of the built-in modules, in catalogue order.
pub open spec fn builtin_names() -> Seq<Seq<char>> {
    seq![
        "Movement Core"@,
        "Movement Advanced"@,
        "Combat Core"@,
        "Combat Advanced"@,
        "Player Core"@,
        "Player Advanced"@,
    ]
}

/// Catalogue entry `i` is Core for even `i`, listens on port `4030 + i`.
pub open spec fn builtin_tier(i: int) -> BuiltinTier {
    if i % 2 == 0 {
        BuiltinTier::Core
    } else {
        BuiltinTier::Advanced
    }
}

fn strings(items: &[&str]) -> (r: Vec<String>)
    ensures
        r@.len() == items@.len(),
        forall|k: int| 0 <= k < items@.len() ==> #[trigger] r@[k]@ == items@[k]@,
{
    let mut out: Vec<String> = Vec::new();
    let mut i: usize = 0;
    while i < items.len()
        invariant
            i <= items@.len(),
            out@.len() == i,
            forall|k: int| 0 <= k < i ==> #[trigger] out@[k]@ == items@[k]@,
        decreases items@.len() - i,
    {
        out.push(String::from_str(items[i]));
        i = i + 1;
    }
    out
}

fn def(
    name: &str,
    tier: BuiltinTier,
    default_port: u16,
    short_description: &str,
    full_description: &str,
    checks: &[&str],
) -> (r: BuiltinModuleDef)
    ensures
        r.name@ == name@,
        r.tier == tier,
        r.default_port == default_port,
        r.checks@.len() == checks@.len(),
{
    BuiltinModuleDef {
        name: String::from_str(name),
        tier,
        default_port,
        short_description: String::from_str(short_description),
        full_description: String::from_str(full_description),
        checks: strings(checks),
    }
}

/// Entry `i` of the catalogue: its name, tier and port.
pub open spec fn is_catalogue_entry(m: BuiltinModuleDef, i: int) -> bool {
    m.name@ == builtin_names()[i] && m.tier == builtin_tier(i) && m.default_port == 4030 + i
}

/// The six built-in modules: three categories (movement, combat, player),
/// each with a Core and an Advanced tier, on ports 4030 to 4035.
pub fn builtin_modules() -> (r: Vec<BuiltinModuleDef>)
    ensures
        r@.len() == 6,
        forall|i: int| 0 <= i < 6 ==> #[trigger] is_catalogue_entry(r@[i], i),
{
    let mut v: Vec<BuiltinModuleDef> = Vec::new();
    v.push(def(
        "Movement Core",
        BuiltinTier::Core,
        4030,
        "Blatant movement cheats",
        "Pareto tier: Catches obvious flight, blatant speed, nofall exploits, and ground spoofing with minimal false positives.",
        &[
            "movement_core_flight_ascend",
            "movement_core_speed_blatant",
            "movement_core_nofall_ground",
            "movement_core_groundspoof_fall",
            "movement_core_groundspoof_ascend",
        ],
    ));
    v.push(def(
        "Movement Advanced",
        BuiltinTier::Advanced,
        4031,
        "Subtle movement analysis",
        "Y-prediction physics, hovering detection, sprint/sneak speed limits, timer manipulation, step height, and noslow bypass.",
        &[
            "movement_advanced_flight_ypred",
            "movement_advanced_flight_hover",
            "movement_advanced_speed_sprint",
            "movement_advanced_speed_sneak",
            "movement_advanced_timer_fast",
            "movement_advanced_timer_slow",
            "movement_advanced_step_height",
            "movement_advanced_noslow_item",
        ],
    ));
    v.push(def(
        "Combat Core",
        BuiltinTier::Core,
        4032,
        "High-signal combat cheats",
        "Pareto tier: Simple checks catching 80% of combat cheaters. High CPS, critical reach, multi-target switching, and missing arm animations.",
        &[
            "combat_core_autoclicker_cps",
            "combat_core_reach_critical",
            "combat_core_killaura_multi",
            "combat_core_noswing",
        ],
    ));
    v.push(def(
        "Combat Advanced",
        BuiltinTier::Advanced,
        4033,
        "Statistical combat analysis",
        "Statistical analysis of aim patterns, autoclicker timing distributions, GCD sensitivity checks, and subtle reach accumulation.",
        &[
            "combat_advanced_aim_headsnap",
            "combat_advanced_aim_pitchspread",
            "combat_advanced_aim_sensitivity",
            "combat_advanced_aim_modulo",
            "combat_advanced_aim_dirswitch",
            "combat_advanced_aim_repeated_yaw",
            "combat_advanced_autoclicker_timing",
            "combat_advanced_autoclicker_variance",
            "combat_advanced_autoclicker_kurtosis",
            "combat_advanced_autoclicker_tickalign",
            "combat_advanced_killaura_post",
            "combat_advanced_reach_distance",
        ],
    ));
    v.push(def(
        "Player Core",
        BuiltinTier::Core,
        4034,
        "Obvious packet abuse",
        "Pareto tier: Invalid packets (pitch, NaN, slots), impossible abilities, critical fast place/break, and airborne scaffolding.",
        &[
            "player_core_badpackets_pitch",
            "player_core_badpackets_nan",
            "player_core_badpackets_abilities",
            "player_core_badpackets_slot",
            "player_core_fastplace_critical",
            "player_core_fastbreak_critical",
            "player_core_scaffold_airborne",
        ],
    ));
    v.push(def(
        "Player Advanced",
        BuiltinTier::Advanced,
        4035,
        "Complex interaction analysis",
        "Interaction angles, rapid inventory clicks, fast place/break accumulation, and sprint-while-bridging detection.",
        &[
            "player_advanced_interact_angle",
            "player_advanced_interact_impossible",
            "player_advanced_inventory_fast",
            "player_advanced_fastplace",
            "player_advanced_fastbreak",
            "player_advanced_scaffold_sprint",
        ],
    ));
    v
}

fn clone_strings(items: &Vec<String>) -> (r: Vec<String>)
    ensures
        r@.len() == items@.len(),
        forall|k: int| 0 <= k < items@.len() ==> #[trigger] r@[k]@ == items@[k]@,
{
    let mut out: Vec<String> = Vec::new();
    let mut i: usize = 0;
    while i < items.len()
        invariant
            i <= items@.len(),
            out@.len() == i,
            forall|k: int| 0 <= k < i ==> #[trigger] out@[k]@ == items@[k]@,
        decreases items@.len() - i,
    {
        out.push(items[i].clone());
        i = i + 1;
    }
    out
}

/// Entry `i` of the listed catalogue, with its default base URL.
pub open spec fn is_catalogue_info(m: BuiltinModuleInfo, i: int) -> bool {
    m.name@ == builtin_names()[i] && m.tier == builtin_tier(i) && m.default_port == 4030 + i
        && m.default_base_url@ == base_url_for((4030 + i) as u16)
}

/// The catalogue as listed to users, each entry with its default base URL.
pub fn builtin_modules_info() -> (r: Vec<BuiltinModuleInfo>)
    ensures
        r@.len() == 6,
        forall|i: int| 0 <= i < 6 ==> #[trigger] is_catalogue_info(r@[i], i),
{
    let defs = builtin_modules();
    let mut out: Vec<BuiltinModuleInfo> = Vec::new();
    let mut i: usize = 0;
    while i < defs.len()
        invariant
            defs@.len() == 6,
            forall|k: int|
                0 <= k < 6 ==> #[trigger] is_catalogue_entry(defs@[k], k),
            i <= 6,
            out@.len() == i,
            forall|k: int| 0 <= k < i ==> #[trigger] is_catalogue_info(out@[k], k),
        decreases 6 - i,
    {
        let m = &defs[i];
        assert(is_catalogue_entry(defs@[i as int], i as int));
        out.push(
            BuiltinModuleInfo {
                name: m.name.clone(),
                tier: m.tier,
                default_port: m.default_port,
                default_base_url: default_base_url(m.default_port),
                short_description: m.short_description.clone(),
                full_description: m.full_description.clone(),
                checks: clone_strings(&m.checks),
            },
        );
        assert(is_catalogue_info(out@[i as int], i as int));
        i = i + 1;
    }
    out
}

/// The built-in module of the given name, if there is one.
pub fn builtin_by_name(name: &str) -> (r: Option<BuiltinModuleDef>)
    ensures
        r matches Some(m) ==> m.name@ == name@ && exists|i: int|
            0 <= i < 6 && builtin_names()[i] == name@ && m.tier == builtin_tier(i) && m.default_port
                == 4030 + i,
        r is None ==> forall|i: int| 0 <= i < 6 ==> builtin_names()[i] != name@,
{
    let mut defs = builtin_modules();
    let mut i: usize = 0;
    while i < defs.len()
        invariant
            defs@.len() == 6,
            forall|k: int|
                0 <= k < 6 ==> #[trigger] is_catalogue_entry(defs@[k], k),
            i <= 6,
            forall|k: int| 0 <= k < i ==> builtin_names()[k] != name@,
        decreases 6 - i,
    {
        assert(is_catalogue_entry(defs@[i as int], i as int));
        if str_equals(defs[i].name.as_str(), name) {
            let ghost k = i as int;
            let m = defs.remove(i);
            assert(builtin_names()[k] == name@);
            return Some(m);
        }
        i = i + 1;
    }
    None
}

} // verus!
