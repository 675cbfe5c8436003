//! Proxmox network interfaces: the listing, the forms of staged creations
//! and updates, and the texts of every network tool. Changes are staged by
//! the API until they are applied.
use vstd::prelude::*;
use crate::confirmation::opt_view;
use crate::json::{object_text, render_object, JsonValue, JsonView};
use crate::text::{decimal, owned, push_str, u64_to_decimal};
use crate::tools::docker::{pad_right, push_padded};
use crate::tools::proxmox::{clone_opt, opt_pair, opt_str_json, opt_text, pairs_view, push_pair, str_json};

verus! {

/// The most characters of output returned by the listing.
pub const OUTPUT_MAX_CHARS: usize = 10_000;

/// The settings of an interface that a creation or an update may carry.
#[derive(Debug)]
pub struct NetworkSettings {
    pub address: Option<String>,
    pub netmask: Option<String>,
    pub gateway: Option<String>,
    pub address6: Option<String>,
    pub netmask6: Option<String>,
    pub gateway6: Option<String>,
    pub bridge_ports: Option<String>,
    pub bond_mode: Option<String>,
    pub vlan_id: Option<u32>,
    pub vlan_raw_device: Option<String>,
    pub autostart: Option<bool>,
    pub comments: Option<String>,
}

/// The API's form of the addressing settings, in order, each only when
/// given.
pub open spec fn address_form(s: NetworkSettings) -> Seq<(Seq<char>, Seq<char>)> {
    opt_pair("address"@, opt_text(s.address)) + opt_pair("netmask"@, opt_text(s.netmask)) + opt_pair(
        "gateway"@,
        opt_text(s.gateway),
    ) + opt_pair("address6"@, opt_text(s.address6)) + opt_pair("netmask6"@, opt_text(s.netmask6)) + opt_pair(
        "gateway6"@,
        opt_text(s.gateway6),
    )
}

/// The API's form of the link settings, in order, each only when given.
pub open spec fn link_form(s: NetworkSettings) -> Seq<(Seq<char>, Seq<char>)> {
    opt_pair("bridge_ports"@, opt_text(s.bridge_ports)) + opt_pair("bond_mode"@, opt_text(s.bond_mode)) + opt_pair(
        "vlan-id"@,
        match s.vlan_id {
            Some(v) => Some(decimal(v as nat)),
            None => None,
        },
    ) + opt_pair("vlan-raw-device"@, opt_text(s.vlan_raw_device)) + opt_pair(
        "autostart"@,
        match s.autostart {
            Some(b) => Some(
                if b {
                    "1"@
                } else {
                    "0"@
                },
            ),
            None => None,
        },
    ) + opt_pair("comments"@, opt_text(s.comments))
}

/// The API's form of the settings, in order, each only when given.
pub open spec fn settings_form(s: NetworkSettings) -> Seq<(Seq<char>, Seq<char>)> {
    address_form(s) + link_form(s)
}

fn push_address(params: &mut Vec<(String, String)>, s: &NetworkSettings)
    ensures
        pairs_view(final(params)@) == pairs_view(old(params)@) + address_form(*s),
{
    let ghost p0 = pairs_view(params@);
    push_pair(params, "address", clone_opt(&s.address));
    push_pair(params, "netmask", clone_opt(&s.netmask));
    push_pair(params, "gateway", clone_opt(&s.gateway));
    push_pair(params, "address6", clone_opt(&s.address6));
    push_pair(params, "netmask6", clone_opt(&s.netmask6));
    push_pair(params, "gateway6", clone_opt(&s.gateway6));
    assert(pairs_view(params@) =~= p0 + address_form(*s));
}

fn push_link(params: &mut Vec<(String, String)>, s: &NetworkSettings)
    ensures
        pairs_view(final(params)@) == pairs_view(old(params)@) + link_form(*s),
{
    let ghost p0 = pairs_view(params@);
    push_pair(params, "bridge_ports", clone_opt(&s.bridge_ports));
    push_pair(params, "bond_mode", clone_opt(&s.bond_mode));
    let vlan = match s.vlan_id {
        Some(v) => Some(u64_to_decimal(v as u64)),
        None => None,
    };
    push_pair(params, "vlan-id", vlan);
    push_pair(params, "vlan-raw-device", clone_opt(&s.vlan_raw_device));
    let auto = match s.autostart {
        Some(b) => Some(owned(crate::tools::proxmox::bool_to_proxmox(b))),
        None => None,
    };
    push_pair(params, "autostart", auto);
    push_pair(params, "comments", clone_opt(&s.comments));
    assert(pairs_view(params@) =~= p0 + link_form(*s));
}

fn push_settings(params: &mut Vec<(String, String)>, s: &NetworkSettings)
    ensures
        pairs_view(final(params)@) == pairs_view(old(params)@) + settings_form(*s),
{
    let ghost p0 = pairs_view(params@);
    push_address(params, s);
    push_link(params, s);
    assert(pairs_view(params@) =~= p0 + settings_form(*s));
}

/// The form of a creation: the name and type, then the settings.
pub fn network_create_params(iface: &str, iface_type: &str, s: &NetworkSettings) -> (params: Vec<(String, String)>)
    ensures
        pairs_view(params@) == seq![("iface"@, iface@), ("type"@, iface_type@)] + settings_form(*s),
{
    let mut params: Vec<(String, String)> = Vec::new();
    params.push((owned("iface"), owned(iface)));
    params.push((owned("type"), owned(iface_type)));
    assert(pairs_view(params@) =~= seq![("iface"@, iface@), ("type"@, iface_type@)]);
    push_settings(&mut params, s);
    params
}

/// The form of an update: the type when given, then the settings.
pub fn network_update_params(iface_type: &Option<String>, s: &NetworkSettings) -> (params: Vec<(String, String)>)
    ensures
        pairs_view(params@) == opt_pair("type"@, opt_text(*iface_type)) + settings_form(*s),
{
    let mut params: Vec<(String, String)> = Vec::new();
    assert(pairs_view(params@) =~= Seq::<(Seq<char>, Seq<char>)>::empty());
    push_pair(&mut params, "type", clone_opt(iface_type));
    assert(Seq::<(Seq<char>, Seq<char>)>::empty() + opt_pair("type"@, opt_text(*iface_type)) =~= opt_pair(
        "type"@,
        opt_text(*iface_type),
    ));
    push_settings(&mut params, s);
    params
}

/// The path of a node's interfaces.
pub fn network_path(node: &str) -> (p: String)
    ensures
        p@ == "/nodes/"@ + node@ + "/network"@,
{
    let mut p = owned("/nodes/");
    push_str(&mut p, node);
    push_str(&mut p, "/network");
    p
}

/// The path of one interface.
pub fn network_iface_path(node: &str, iface: &str) -> (p: String)
    ensures
        p@ == "/nodes/"@ + node@ + "/network/"@ + iface@,
{
    let mut p = owned("/nodes/");
    push_str(&mut p, node);
    push_str(&mut p, "/network/");
    push_str(&mut p, iface);
    p
}

/// The reminder that network changes wait for an apply.
pub open spec fn staged_note() -> Seq<char> {
    "\nNote: Network changes are staged — call proxmox.network.apply to make them live."@
}

/// The reminder that a change was staged.
pub open spec fn staged_done() -> Seq<char> {
    "\nNote: This change is STAGED. Call proxmox.network.apply to make it live."@
}

/// The dry-run text of a creation.
pub fn network_create_dry_run(iface: &str, iface_type: &str, host: &str) -> (r: String)
    ensures
        r@ == "DRY RUN: Would create network interface '"@ + iface@ + "' (type: "@ + iface_type@ + ") on Proxmox host '"@
            + host@ + "'."@ + staged_note(),
{
    let mut r = owned("DRY RUN: Would create network interface '");
    push_str(&mut r, iface);
    push_str(&mut r, "' (type: ");
    push_str(&mut r, iface_type);
    push_str(&mut r, ") on Proxmox host '");
    push_str(&mut r, host);
    push_str(&mut r, "'.");
    push_str(&mut r, "\nNote: Network changes are staged — call proxmox.network.apply to make them live.");
    r
}

/// The report of a creation.
pub fn network_create_report(iface: &str, iface_type: &str, node: &str, host: &str) -> (r: String)
    ensures
        r@ == "Created network interface '"@ + iface@ + "' (type: "@ + iface_type@ + ") on node '"@ + node@ + "' (host: '"@
            + host@ + "')."@ + staged_done(),
{
    let mut r = owned("Created network interface '");
    push_str(&mut r, iface);
    push_str(&mut r, "' (type: ");
    push_str(&mut r, iface_type);
    push_str(&mut r, ") on node '");
    push_str(&mut r, node);
    push_str(&mut r, "' (host: '");
    push_str(&mut r, host);
    push_str(&mut r, "').");
    push_str(&mut r, "\nNote: This change is STAGED. Call proxmox.network.apply to make it live.");
    r
}

fn iface_on_host(prefix: &str, iface: &str, host: &str, suffix: &str) -> (r: String)
    ensures
        r@ == prefix@ + iface@ + "' on Proxmox host '"@ + host@ + suffix@,
{
    let mut r = owned(prefix);
    push_str(&mut r, iface);
    push_str(&mut r, "' on Proxmox host '");
    push_str(&mut r, host);
    push_str(&mut r, suffix);
    r
}

fn iface_on_node(prefix: &str, iface: &str, node: &str, host: &str) -> (r: String)
    ensures
        r@ == prefix@ + iface@ + "' on node '"@ + node@ + "' (host: '"@ + host@ + "')."@ + staged_done(),
{
    let mut r = owned(prefix);
    push_str(&mut r, iface);
    push_str(&mut r, "' on node '");
    push_str(&mut r, node);
    push_str(&mut r, "' (host: '");
    push_str(&mut r, host);
    push_str(&mut r, "').");
    push_str(&mut r, "\nNote: This change is STAGED. Call proxmox.network.apply to make it live.");
    r
}

/// The dry-run text of an update.
pub fn network_update_dry_run(iface: &str, host: &str) -> (r: String)
    ensures
        r@ == "DRY RUN: Would update network interface '"@ + iface@ + "' on Proxmox host '"@ + host@
            + "'.\nNote: Network changes are staged — call proxmox.network.apply to make them live."@,
{
    iface_on_host(
        "DRY RUN: Would update network interface '",
        iface,
        host,
        "'.\nNote: Network changes are staged — call proxmox.network.apply to make them live.",
    )
}

/// What a confirmation of an update is asked with.
pub fn network_update_description(iface: &str, host: &str) -> (r: String)
    ensures
        r@ == "About to MODIFY network interface '"@ + iface@ + "' on Proxmox host '"@ + host@
            + "'. Changing network configuration can break connectivity."@,
{
    iface_on_host(
        "About to MODIFY network interface '",
        iface,
        host,
        "'. Changing network configuration can break connectivity.",
    )
}

fn num32_json(v: Option<u32>) -> (j: JsonValue)
    ensures
        j@ == match v {
            Some(x) => JsonView::Number(x as u64),
            None => JsonView::Null,
        },
{
    match v {
        Some(x) => JsonValue::Number(x as u64),
        None => JsonValue::Null,
    }
}

fn flag_json(v: Option<bool>) -> (j: JsonValue)
    ensures
        j@ == crate::tools::proxmox_ops::opt_bool(v),
{
    match v {
        Some(b) => JsonValue::Bool(b),
        None => JsonValue::Null,
    }
}

fn text_json(v: Option<&str>) -> (j: JsonValue)
    ensures
        j@ == opt_str_json(opt_view(v)),
{
    match v {
        Some(x) => JsonValue::Str(owned(x)),
        None => JsonValue::Null,
    }
}

/// The parameters kept with a confirmation token of an update.
pub open spec fn update_params_json(
    host: Seq<char>,
    node: Option<Seq<char>>,
    iface: Seq<char>,
    s: NetworkSettings,
    iface_type: Option<Seq<char>>,
) -> Seq<char> {
    object_text(
        seq![
            ("address"@, opt_str_json(opt_text(s.address))),
            ("address6"@, opt_str_json(opt_text(s.address6))),
            ("autostart"@, crate::tools::proxmox_ops::opt_bool(s.autostart)),
            ("bond_mode"@, opt_str_json(opt_text(s.bond_mode))),
            ("bridge_ports"@, opt_str_json(opt_text(s.bridge_ports))),
            ("comments"@, opt_str_json(opt_text(s.comments))),
            ("gateway"@, opt_str_json(opt_text(s.gateway))),
            ("gateway6"@, opt_str_json(opt_text(s.gateway6))),
            ("host"@, JsonView::Str(host)),
            ("iface"@, JsonView::Str(iface)),
            ("netmask"@, opt_str_json(opt_text(s.netmask))),
            ("netmask6"@, opt_str_json(opt_text(s.netmask6))),
            ("node"@, opt_str_json(node)),
            ("type"@, opt_str_json(iface_type)),
            (
                "vlan_id"@,
                match s.vlan_id {
                    Some(x) => JsonView::Number(x as u64),
                    None => JsonView::Null,
                },
            ),
            ("vlan_raw_device"@, opt_str_json(opt_text(s.vlan_raw_device))),
        ],
    )
}

/// Writes the parameters kept with a confirmation token of an update.
pub fn network_update_params_json(
    host: &str,
    node: Option<&str>,
    iface: &str,
    s: &NetworkSettings,
    iface_type: Option<&str>,
) -> (r: String)
    ensures
        r@ == update_params_json(host@, opt_view(node), iface@, *s, opt_view(iface_type)),
{
    let entries: Vec<(&str, JsonValue)> = vec![
        ("address", str_json(&s.address)),
        ("address6", str_json(&s.address6)),
        ("autostart", flag_json(s.autostart)),
        ("bond_mode", str_json(&s.bond_mode)),
        ("bridge_ports", str_json(&s.bridge_ports)),
        ("comments", str_json(&s.comments)),
        ("gateway", str_json(&s.gateway)),
        ("gateway6", str_json(&s.gateway6)),
        ("host", JsonValue::Str(owned(host))),
        ("iface", JsonValue::Str(owned(iface))),
        ("netmask", str_json(&s.netmask)),
        ("netmask6", str_json(&s.netmask6)),
        ("node", text_json(node)),
        ("type", text_json(iface_type)),
        ("vlan_id", num32_json(s.vlan_id)),
        ("vlan_raw_device", str_json(&s.vlan_raw_device)),
    ];
    proof {
        reveal_strlit("address");
        reveal_strlit("address6");
        reveal_strlit("autostart");
        reveal_strlit("bond_mode");
        reveal_strlit("bridge_ports");
        reveal_strlit("comments");
        reveal_strlit("gateway");
        reveal_strlit("gateway6");
        reveal_strlit("host");
        reveal_strlit("iface");
        reveal_strlit("netmask");
        reveal_strlit("netmask6");
        reveal_strlit("node");
        reveal_strlit("type");
        reveal_strlit("vlan_id");
        reveal_strlit("vlan_raw_device");
        reveal_with_fuel(crate::json::keys_ascending, 17);
        reveal_with_fuel(crate::json::text_less, 11);
        assert(crate::json::keys_ascending(crate::json::entries_view(entries@)));
    }
    let r = render_object(&entries);
    assert(crate::json::entries_view(entries@) =~= seq![
        ("address"@, opt_str_json(opt_text(s.address))),
        ("address6"@, opt_str_json(opt_text(s.address6))),
        ("autostart"@, crate::tools::proxmox_ops::opt_bool(s.autostart)),
        ("bond_mode"@, opt_str_json(opt_text(s.bond_mode))),
        ("bridge_ports"@, opt_str_json(opt_text(s.bridge_ports))),
        ("comments"@, opt_str_json(opt_text(s.comments))),
        ("gateway"@, opt_str_json(opt_text(s.gateway))),
        ("gateway6"@, opt_str_json(opt_text(s.gateway6))),
        ("host"@, JsonView::Str(host@)),
        ("iface"@, JsonView::Str(iface@)),
        ("netmask"@, opt_str_json(opt_text(s.netmask))),
        ("netmask6"@, opt_str_json(opt_text(s.netmask6))),
        ("node"@, opt_str_json(opt_view(node))),
        ("type"@, opt_str_json(opt_view(iface_type))),
        (
            "vlan_id"@,
            match s.vlan_id {
                Some(x) => JsonView::Number(x as u64),
                None => JsonView::Null,
            },
        ),
        ("vlan_raw_device"@, opt_str_json(opt_text(s.vlan_raw_device))),
    ]);
    r
}

/// The report of an update.
pub fn network_update_report(iface: &str, node: &str, host: &str) -> (r: String)
    ensures
        r@ == "Updated network interface '"@ + iface@ + "' on node '"@ + node@ + "' (host: '"@ + host@ + "')."@
            + staged_done(),
{
    iface_on_node("Updated network interface '", iface, node, host)
}

/// The dry-run text of a deletion.
pub fn network_delete_dry_run(iface: &str, host: &str) -> (r: String)
    ensures
        r@ == "DRY RUN: Would delete network interface '"@ + iface@ + "' on Proxmox host '"@ + host@
            + "'.\nNote: Network changes are staged — call proxmox.network.apply to make them live."@,
{
    iface_on_host(
        "DRY RUN: Would delete network interface '",
        iface,
        host,
        "'.\nNote: Network changes are staged — call proxmox.network.apply to make them live.",
    )
}

/// What a confirmation of a deletion is asked with.
pub fn network_delete_description(iface: &str, host: &str) -> (r: String)
    ensures
        r@ == "About to DELETE network interface '"@ + iface@ + "' on Proxmox host '"@ + host@
            + "'. Removing a bridge can isolate VMs that depend on it."@,
{
    iface_on_host(
        "About to DELETE network interface '",
        iface,
        host,
        "'. Removing a bridge can isolate VMs that depend on it.",
    )
}

/// The parameters kept with a confirmation token of a deletion.
pub fn network_delete_params_json(host: &str, node: Option<&str>, iface: &str) -> (r: String)
    ensures
        r@ == object_text(
            seq![
                ("host"@, JsonView::Str(host@)),
                ("iface"@, JsonView::Str(iface@)),
                ("node"@, opt_str_json(opt_view(node))),
            ],
        ),
{
    let entries: Vec<(&str, JsonValue)> = vec![
        ("host", JsonValue::Str(owned(host))),
        ("iface", JsonValue::Str(owned(iface))),
        ("node", text_json(node)),
    ];
    proof {
        reveal_strlit("host");
        reveal_strlit("iface");
        reveal_strlit("node");
        reveal_with_fuel(crate::json::keys_ascending, 4);
        reveal_with_fuel(crate::json::text_less, 11);
        assert(crate::json::keys_ascending(crate::json::entries_view(entries@)));
    }
    let r = render_object(&entries);
    assert(crate::json::entries_view(entries@) =~= seq![
        ("host"@, JsonView::Str(host@)),
        ("iface"@, JsonView::Str(iface@)),
        ("node"@, opt_str_json(opt_view(node))),
    ]);
    r
}

/// The report of a deletion.
pub fn network_delete_report(iface: &str, node: &str, host: &str) -> (r: String)
    ensures
        r@ == "Deleted network interface '"@ + iface@ + "' on node '"@ + node@ + "' (host: '"@ + host@ + "')."@
            + staged_done(),
{
    iface_on_node("Deleted network interface '", iface, node, host)
}

/// The dry-run text of an apply.
pub fn network_apply_dry_run(host: &str) -> (r: String)
    ensures
        r@ == "DRY RUN: Would apply all pending network configuration changes on Proxmox host '"@ + host@
            + "'.\nWARNING: Applying bad network config can isolate the host."@,
{
    let mut r = owned("DRY RUN: Would apply all pending network configuration changes on Proxmox host '");
    push_str(&mut r, host);
    push_str(&mut r, "'.\nWARNING: Applying bad network config can isolate the host.");
    r
}

/// What a confirmation of an apply is asked with.
pub fn network_apply_description(host: &str) -> (r: String)
    ensures
        r@ == "About to APPLY all pending network changes on Proxmox host '"@ + host@
            + "'. Applying bad config to the management bridge (vmbr0) can isolate the host."@,
{
    let mut r = owned("About to APPLY all pending network changes on Proxmox host '");
    push_str(&mut r, host);
    push_str(&mut r, "'. Applying bad config to the management bridge (vmbr0) can isolate the host.");
    r
}

/// The parameters kept with a confirmation token of an apply.
pub fn network_apply_params_json(host: &str, node: Option<&str>) -> (r: String)
    ensures
        r@ == object_text(seq![("host"@, JsonView::Str(host@)), ("node"@, opt_str_json(opt_view(node)))]),
{
    let entries: Vec<(&str, JsonValue)> = vec![
        ("host", JsonValue::Str(owned(host))),
        ("node", text_json(node)),
    ];
    proof {
        reveal_strlit("host");
        reveal_strlit("node");
        reveal_with_fuel(crate::json::keys_ascending, 3);
        reveal_with_fuel(crate::json::text_less, 11);
        assert(crate::json::keys_ascending(crate::json::entries_view(entries@)));
    }
    let r = render_object(&entries);
    assert(crate::json::entries_view(entries@) =~= seq![
        ("host"@, JsonView::Str(host@)),
        ("node"@, opt_str_json(opt_view(node))),
    ]);
    r
}

/// The report of an apply.
pub fn network_apply_report(node: &str, host: &str) -> (r: String)
    ensures
        r@ == "Applied pending network configuration changes on node '"@ + node@ + "' (host: '"@ + host@
            + "').\nNetwork changes are now live."@,
{
    let mut r = owned("Applied pending network configuration changes on node '");
    push_str(&mut r, node);
    push_str(&mut r, "' (host: '");
    push_str(&mut r, host);
    push_str(&mut r, "').\nNetwork changes are now live.");
    r
}

/// One interface as the listing reads it.
#[derive(Debug)]
pub struct NetworkRow {
    pub iface: Option<String>,
    pub iface_type: Option<String>,
    pub address: Option<String>,
    pub cidr: Option<String>,
    pub active: u64,
    pub autostart: u64,
    pub bridge_ports: Option<String>,
}

/// The address shown for an interface: its CIDR, else its address, else `-`.
pub open spec fn shown_address(r: NetworkRow) -> Seq<char> {
    match r.cidr {
        Some(c) => c@,
        None => match r.address {
            Some(a) => a@,
            None => "-"@,
        },
    }
}

/// `yes` for 1, `no` otherwise.
pub open spec fn yes_no(v: u64) -> Seq<char> {
    if v == 1 {
        "yes"@
    } else {
        "no"@
    }
}

/// One table line for an interface.
pub open spec fn network_row_text(r: NetworkRow) -> Seq<char> {
    pad_right(crate::tools::proxmox_ops::or_unknown(r.iface), 16) + "  "@ + pad_right(
        crate::tools::proxmox_ops::or_unknown(r.iface_type),
        10,
    ) + "  "@ + pad_right(shown_address(r), 18) + "  "@ + pad_right(yes_no(r.active), 10) + "  "@ + pad_right(
        yes_no(r.autostart),
        8,
    ) + "  "@ + match r.bridge_ports {
        Some(b) => b@,
        None => "-"@,
    }
}

/// The interface table: its heading, then one line per interface.
pub open spec fn network_table(node: Seq<char>, host: Seq<char>, rows: Seq<NetworkRow>) -> Seq<char>
    decreases rows.len(),
{
    if rows.len() == 0 {
        "Network interfaces on node '"@ + node + "' (Proxmox host: "@ + host + ")\n\n"@ + pad_right("IFACE"@, 16) + "  "@
            + pad_right("TYPE"@, 10) + "  "@ + pad_right("ADDRESS"@, 18) + "  "@ + pad_right("ACTIVE"@, 10) + "  "@
            + pad_right("AUTO"@, 8) + "  "@ + "BRIDGE PORTS"@
    } else {
        network_table(node, host, rows.drop_last()) + "\n"@ + network_row_text(rows.last())
    }
}

fn yes_no_exec(v: u64) -> (s: &'static str)
    ensures
        s@ == yes_no(v),
{
    if v == 1 {
        "yes"
    } else {
        "no"
    }
}

fn network_row_string(r: &NetworkRow) -> (s: String)
    ensures
        s@ == network_row_text(*r),
{
    let mut s = String::new();
    let name = match &r.iface {
        Some(x) => x.clone(),
        None => owned("?"),
    };
    push_padded(&mut s, name.as_str(), 16);
    push_str(&mut s, "  ");
    let t = match &r.iface_type {
        Some(x) => x.clone(),
        None => owned("?"),
    };
    push_padded(&mut s, t.as_str(), 10);
    push_str(&mut s, "  ");
    let a = match &r.cidr {
        Some(c) => c.clone(),
        None => match &r.address {
            Some(x) => x.clone(),
            None => owned("-"),
        },
    };
    push_padded(&mut s, a.as_str(), 18);
    push_str(&mut s, "  ");
    push_padded(&mut s, yes_no_exec(r.active), 10);
    push_str(&mut s, "  ");
    push_padded(&mut s, yes_no_exec(r.autostart), 8);
    push_str(&mut s, "  ");
    match &r.bridge_ports {
        Some(b) => push_str(&mut s, b.as_str()),
        None => push_str(&mut s, "-"),
    }
    assert(Seq::<char>::empty() + network_row_text(*r) =~= network_row_text(*r));
    s
}

/// The listing of a node's interfaces: "No network interfaces found" for
/// none, else the table, kept within the output limit.
pub fn network_list_report(node: &str, host: &str, rows: &Vec<NetworkRow>) -> (r: String)
    ensures
        rows@.len() == 0 ==> r@ == "No network interfaces found on node '"@ + node@ + "'."@,
        rows@.len() > 0 ==> r@ == crate::tools::truncated(network_table(node@, host@, rows@), OUTPUT_MAX_CHARS),
{
    if rows.len() == 0 {
        let mut r = owned("No network interfaces found on node '");
        push_str(&mut r, node);
        push_str(&mut r, "'.");
        return r;
    }
    let mut t = owned("Network interfaces on node '");
    push_str(&mut t, node);
    push_str(&mut t, "' (Proxmox host: ");
    push_str(&mut t, host);
    push_str(&mut t, ")\n\n");
    push_padded(&mut t, "IFACE", 16);
    push_str(&mut t, "  ");
    push_padded(&mut t, "TYPE", 10);
    push_str(&mut t, "  ");
    push_padded(&mut t, "ADDRESS", 18);
    push_str(&mut t, "  ");
    push_padded(&mut t, "ACTIVE", 10);
    push_str(&mut t, "  ");
    push_padded(&mut t, "AUTO", 8);
    push_str(&mut t, "  ");
    push_str(&mut t, "BRIDGE PORTS");
    assert(rows@.take(0) =~= Seq::<NetworkRow>::empty());
    let mut i: usize = 0;
    while i < rows.len()
        invariant
            i <= rows@.len(),
            t@ == network_table(node@, host@, rows@.take(i as int)),
        decreases rows@.len() - i,
    {
        assert(rows@.take(i + 1).drop_last() =~= rows@.take(i as int));
        let line = network_row_string(&rows[i]);
        push_str(&mut t, "\n");
        push_str(&mut t, line.as_str());
        i = i + 1;
    }
    assert(rows@.take(i as int) =~= rows@);
    crate::tools::truncate_output(t.as_str(), OUTPUT_MAX_CHARS)
}

} // verus!
