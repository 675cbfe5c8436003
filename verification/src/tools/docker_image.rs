//! Docker images: splitting a reference into image and tag, the image
//! table, the texts of pulls, deletions and prunes, and the redaction of
//! environment values in an inspected image.
use vstd::prelude::*;
use crate::json::{object_text, render_object, JsonValue, JsonView};
use crate::text::{decimal, owned, push_str, u64_to_decimal};
use crate::tools::docker::{first_eq, pad_right, padded, push_padded, redact_env_entry, redacted_entry};

verus! {

/// The most characters of output returned by the image tools.
pub const OUTPUT_MAX_CHARS: usize = 10_000;

/// The position of the last `:` in `s`, if any.
pub open spec fn last_colon(s: Seq<char>) -> Option<int> {
    if exists|i: int| 0 <= i < s.len() && s[i] == ':' {
        Some(choose|i: int| 0 <= i < s.len() && s[i] == ':' && forall|j: int| i < j < s.len() ==> s[j] != ':')
    } else {
        None
    }
}

/// An image reference split into image and tag: at the last `:` unless
/// what follows it holds a `/` (then the colon belongs to a registry
/// port); the tag is `latest` when there is none.
pub open spec fn image_and_tag(image: Seq<char>) -> (Seq<char>, Seq<char>) {
    match last_colon(image) {
        None => (image, "latest"@),
        Some(p) => if image.skip(p + 1).contains('/') {
            (image, "latest"@)
        } else {
            (image.take(p), image.skip(p + 1))
        },
    }
}

/// Splits an image reference into the image and the tag to pull.
pub fn image_reference(image: &str) -> (r: (String, String))
    ensures
        r.0@ == image_and_tag(image@).0,
        r.1@ == image_and_tag(image@).1,
{
    let v = crate::text::chars_of(image);
    let mut i: usize = v.len();
    while i > 0
        invariant
            i <= v@.len(),
            v@ == image@,
            forall|j: int| i <= j < v@.len() ==> v@[j] != ':',
        decreases i,
    {
        if v[i - 1] == ':' {
            let p = i - 1;
            proof {
                assert(image@[p as int] == ':');
                let c = choose|c: int| 0 <= c < image@.len() && image@[c] == ':' && forall|j: int|
                    c < j < image@.len() ==> image@[j] != ':';
                assert(0 <= c < image@.len() && image@[c] == ':' && forall|j: int| c < j < image@.len() ==> image@[j] != ':');
                if c < p {
                    assert(image@[p as int] != ':');
                } else if c > p {
                    assert(image@[c] != ':');
                }
                assert(last_colon(image@) == Some(p as int));
            }
            let after = crate::text::string_of_range(v.as_slice(), p + 1, v.len());
            assert(after@ =~= image@.skip(p + 1));
            let mut k: usize = p + 1;
            while k < v.len()
                invariant
                    p + 1 <= k <= v@.len(),
                    v@ == image@,
                    last_colon(image@) == Some(p as int),
                    forall|j: int| p + 1 <= j < k ==> v@[j] != '/',
                decreases v@.len() - k,
            {
                if v[k] == '/' {
                    assert(image@.skip(p + 1)[k - p - 1] == '/');
                    return (owned(image), owned("latest"));
                }
                k = k + 1;
            }
            proof {
                let tail = image@.skip(p + 1);
                assert forall|j: int| 0 <= j < tail.len() implies #[trigger] tail[j] != '/' by {
                    assert(tail[j] == v@[p + 1 + j]);
                    assert(v@[p + 1 + j] != '/');
                }
                assert(!tail.contains('/'));
            }
            let before = crate::text::string_of_range(v.as_slice(), 0, p);
            assert(before@ =~= image@.take(p as int));
            return (before, after);
        }
        i = i - 1;
    }
    proof {
        assert(!exists|i: int| 0 <= i < image@.len() && image@[i] == ':');
    }
    (owned(image), owned("latest"))
}

/// The dry-run text of a pull.
pub fn image_pull_dry_run(image: &str, host: &str) -> (r: String)
    ensures
        r@ == "DRY RUN: Would pull image '"@ + image@ + "' on Docker host '"@ + host@ + "'."@,
{
    let mut r = owned("DRY RUN: Would pull image '");
    push_str(&mut r, image);
    push_str(&mut r, "' on Docker host '");
    push_str(&mut r, host);
    push_str(&mut r, "'.");
    r
}

/// The report of a finished pull: the last status the daemon sent and how
/// many progress messages came.
pub fn image_pull_report(image: &str, host: &str, last_status: &str, layer_count: u64) -> (r: String)
    ensures
        r@ == "Pulled image '"@ + image@ + "' on Docker host '"@ + host@ + "'. Status: "@ + last_status@
            + ". Layers processed: "@ + decimal(layer_count as nat) + "."@,
{
    let mut r = owned("Pulled image '");
    push_str(&mut r, image);
    push_str(&mut r, "' on Docker host '");
    push_str(&mut r, host);
    push_str(&mut r, "'. Status: ");
    push_str(&mut r, last_status);
    push_str(&mut r, ". Layers processed: ");
    let n = u64_to_decimal(layer_count);
    push_str(&mut r, n.as_str());
    push_str(&mut r, ".");
    r
}

/// One listed image as the table shows it; the size is already written
/// out in megabytes.
#[derive(Debug)]
pub struct ImageRow {
    pub id: String,
    pub repo_tags: Vec<String>,
    pub size_text: String,
    pub created: i64,
}

/// A signed integer in decimal.
pub open spec fn signed_decimal(n: int) -> Seq<char> {
    if n < 0 {
        "-"@ + decimal((-n) as nat)
    } else {
        decimal(n as nat)
    }
}

/// The short form of an image id: twelve characters after the
/// seven-character `sha256:` prefix.
pub open spec fn short_id(id: Seq<char>) -> Seq<char> {
    if id.len() <= 7 {
        seq![]
    } else if id.len() <= 19 {
        id.skip(7)
    } else {
        id.subrange(7, 19)
    }
}

/// Texts joined by `", "`.
pub open spec fn comma_joined(items: Seq<String>) -> Seq<char>
    decreases items.len(),
{
    if items.len() == 0 {
        seq![]
    } else if items.len() == 1 {
        items[0]@
    } else {
        comma_joined(items.drop_last()) + ", "@ + items.last()@
    }
}

/// The tags of an image, or `<none>` when it has none to show.
pub open spec fn tags_text(tags: Seq<String>) -> Seq<char> {
    if comma_joined(tags).len() == 0 {
        "<none>"@
    } else {
        comma_joined(tags)
    }
}

/// One table line for an image.
pub open spec fn image_row_text(r: ImageRow) -> Seq<char> {
    pad_right(short_id(r.id@), 16) + "  "@ + pad_right(tags_text(r.repo_tags@), 40) + "  "@ + pad_right(
        r.size_text@,
        12,
    ) + "  "@ + signed_decimal(r.created as int)
}

/// The image table: the host, the column titles, then one line per image.
pub open spec fn image_table(host: Seq<char>, rows: Seq<ImageRow>) -> Seq<char>
    decreases rows.len(),
{
    if rows.len() == 0 {
        "Docker host: "@ + host + "\n\n"@ + pad_right("ID"@, 16) + "  "@ + pad_right("REPOSITORY:TAG"@, 40)
            + "  "@ + pad_right("SIZE"@, 12) + "  "@ + "CREATED"@
    } else {
        image_table(host, rows.drop_last()) + "\n"@ + image_row_text(rows.last())
    }
}

fn short_id_exec(id: &str) -> (r: String)
    ensures
        r@ == short_id(id@),
{
    let v = crate::text::chars_of(id);
    if v.len() <= 7 {
        return String::new();
    }
    let end: usize = if v.len() <= 19 {
        v.len()
    } else {
        19
    };
    let r = crate::text::string_of_range(v.as_slice(), 7, end);
    assert(r@ =~= short_id(id@));
    r
}

fn comma_joined_exec(items: &Vec<String>) -> (r: String)
    ensures
        r@ == comma_joined(items@),
{
    let mut r = String::new();
    let mut i: usize = 0;
    while i < items.len()
        invariant
            i <= items@.len(),
            r@ == comma_joined(items@.take(i as int)),
        decreases items@.len() - i,
    {
        assert(items@.take(i + 1).drop_last() =~= items@.take(i as int));
        if i > 0 {
            push_str(&mut r, ", ");
        }
        push_str(&mut r, items[i].as_str());
        i = i + 1;
    }
    assert(items@.take(i as int) =~= items@);
    r
}

fn signed_decimal_exec(n: i64) -> (r: String)
    ensures
        r@ == signed_decimal(n as int),
{
    if n < 0 {
        let m: u64 = if n == i64::MIN {
            0x8000_0000_0000_0000
        } else {
            (-n) as u64
        };
        let mut r = owned("-");
        let d = u64_to_decimal(m);
        push_str(&mut r, d.as_str());
        r
    } else {
        u64_to_decimal(n as u64)
    }
}

fn image_row_string(row: &ImageRow) -> (r: String)
    ensures
        r@ == image_row_text(*row),
{
    let id = short_id_exec(row.id.as_str());
    let mut r = padded(id.as_str(), 16);
    push_str(&mut r, "  ");
    let joined = comma_joined_exec(&row.repo_tags);
    let tags = if crate::text::chars_of(joined.as_str()).len() == 0 {
        owned("<none>")
    } else {
        joined
    };
    push_padded(&mut r, tags.as_str(), 40);
    push_str(&mut r, "  ");
    push_padded(&mut r, row.size_text.as_str(), 12);
    push_str(&mut r, "  ");
    let c = signed_decimal_exec(row.created);
    push_str(&mut r, c.as_str());
    r
}

/// The listing of images: "No images found." for none, else the table,
/// kept within the output limit.
pub fn image_list_report(host: &str, rows: &Vec<ImageRow>) -> (r: String)
    ensures
        rows@.len() == 0 ==> r@ == "No images found."@,
        rows@.len() > 0 ==> r@ == crate::tools::truncated(image_table(host@, rows@), OUTPUT_MAX_CHARS),
{
    if rows.len() == 0 {
        return owned("No images found.");
    }
    let mut t = owned("Docker host: ");
    push_str(&mut t, host);
    push_str(&mut t, "\n\n");
    push_padded(&mut t, "ID", 16);
    push_str(&mut t, "  ");
    push_padded(&mut t, "REPOSITORY:TAG", 40);
    push_str(&mut t, "  ");
    push_padded(&mut t, "SIZE", 12);
    push_str(&mut t, "  ");
    push_str(&mut t, "CREATED");
    assert(rows@.take(0) =~= Seq::<ImageRow>::empty());
    let mut i: usize = 0;
    while i < rows.len()
        invariant
            i <= rows@.len(),
            t@ == image_table(host@, rows@.take(i as int)),
        decreases rows@.len() - i,
    {
        assert(rows@.take(i + 1).drop_last() =~= rows@.take(i as int));
        let line = image_row_string(&rows[i]);
        push_str(&mut t, "\n");
        push_str(&mut t, line.as_str());
        i = i + 1;
    }
    assert(rows@.take(i as int) =~= rows@);
    crate::tools::truncate_output(t.as_str(), OUTPUT_MAX_CHARS)
}

/// The dry-run text of an image deletion.
pub fn image_delete_dry_run(image: &str, host: &str, force: bool) -> (r: String)
    ensures
        r@ == "DRY RUN: Would delete image '"@ + image@ + "' on Docker host '"@ + host@ + "'. force="@
            + (if force {
            "true"@
        } else {
            "false"@
        }) + "."@,
{
    let mut r = owned("DRY RUN: Would delete image '");
    push_str(&mut r, image);
    push_str(&mut r, "' on Docker host '");
    push_str(&mut r, host);
    push_str(&mut r, "'. force=");
    push_str(&mut r, if force { "true" } else { "false" });
    push_str(&mut r, ".");
    r
}

/// What a confirmation of an image deletion is asked with.
pub fn image_delete_description(image: &str, host: &str) -> (r: String)
    ensures
        r@ == "About to DELETE image '"@ + image@ + "' on Docker host '"@ + host@ + "'. This is irreversible."@,
{
    let mut r = owned("About to DELETE image '");
    push_str(&mut r, image);
    push_str(&mut r, "' on Docker host '");
    push_str(&mut r, host);
    push_str(&mut r, "'. This is irreversible.");
    r
}

/// The parameters kept with a confirmation token of an image deletion.
pub fn image_delete_params_json(host: &str, image: &str, force: bool) -> (r: String)
    ensures
        r@ == object_text(
            seq![
                ("force"@, JsonView::Bool(force)),
                ("host"@, JsonView::Str(host@)),
                ("image"@, JsonView::Str(image@)),
            ],
        ),
{
    let entries: Vec<(&str, JsonValue)> = vec![
        ("force", JsonValue::Bool(force)),
        ("host", JsonValue::Str(owned(host))),
        ("image", JsonValue::Str(owned(image))),
    ];
    proof {
        reveal_strlit("force");
        reveal_strlit("host");
        reveal_strlit("image");
        reveal_with_fuel(crate::json::keys_ascending, 4);
        reveal_with_fuel(crate::json::text_less, 11);
        assert(crate::json::keys_ascending(crate::json::entries_view(entries@)));
    }
    let r = render_object(&entries);
    assert(crate::json::entries_view(entries@) =~= seq![
        ("force"@, JsonView::Bool(force)),
        ("host"@, JsonView::Str(host@)),
        ("image"@, JsonView::Str(image@)),
    ]);
    r
}

/// The report of an image deletion, from the daemon's answer: how many of
/// its items name a deleted layer and how many an untagged reference.
pub fn image_delete_report(image: &str, host: &str, deleted: &Vec<bool>, untagged: &Vec<bool>) -> (r: String)
    ensures
        r@ == "Deleted image '"@ + image@ + "' on Docker host '"@ + host@ + "'. "@ + decimal(
            count_true(deleted@),
        ) + " layers deleted, "@ + decimal(count_true(untagged@)) + " tags removed."@,
{
    let d = count_exec(deleted);
    let u = count_exec(untagged);
    let mut r = owned("Deleted image '");
    push_str(&mut r, image);
    push_str(&mut r, "' on Docker host '");
    push_str(&mut r, host);
    push_str(&mut r, "'. ");
    let ds = u64_to_decimal(d as u64);
    push_str(&mut r, ds.as_str());
    push_str(&mut r, " layers deleted, ");
    let us = u64_to_decimal(u as u64);
    push_str(&mut r, us.as_str());
    push_str(&mut r, " tags removed.");
    r
}

/// How many entries are `true`.
pub open spec fn count_true(v: Seq<bool>) -> nat
    decreases v.len(),
{
    if v.len() == 0 {
        0
    } else {
        count_true(v.drop_last()) + if v.last() {
            1nat
        } else {
            0nat
        }
    }
}

fn count_exec(v: &Vec<bool>) -> (n: usize)
    ensures
        n == count_true(v@),
{
    let mut n: usize = 0;
    let mut i: usize = 0;
    while i < v.len()
        invariant
            i <= v@.len(),
            n == count_true(v@.take(i as int)),
            n <= i,
        decreases v@.len() - i,
    {
        assert(v@.take(i + 1).drop_last() =~= v@.take(i as int));
        if v[i] {
            n = n + 1;
        }
        i = i + 1;
    }
    assert(v@.take(i as int) =~= v@);
    n
}

/// What a prune covers, in the dry-run text.
pub open spec fn prune_scope(prune_all: bool) -> Seq<char> {
    if prune_all {
        "ALL unused images (including tagged)"@
    } else {
        "dangling (untagged) images only"@
    }
}

/// The dry-run text of a prune.
pub fn image_prune_dry_run(host: &str, prune_all: bool) -> (r: String)
    ensures
        r@ == "DRY RUN: Would prune "@ + prune_scope(prune_all) + " on Docker host '"@ + host@ + "'."@,
{
    let mut r = owned("DRY RUN: Would prune ");
    push_str(&mut r, if prune_all { "ALL unused images (including tagged)" } else { "dangling (untagged) images only" });
    push_str(&mut r, " on Docker host '");
    push_str(&mut r, host);
    push_str(&mut r, "'.");
    r
}

/// What a confirmation of a prune is asked with.
pub fn image_prune_description(host: &str, prune_all: bool) -> (r: String)
    ensures
        r@ == "About to PRUNE "@ + (if prune_all {
            "all unused"@
        } else {
            "dangling"@
        }) + " images on Docker host '"@ + host@ + "'. This is irreversible."@,
{
    let mut r = owned("About to PRUNE ");
    push_str(&mut r, if prune_all { "all unused" } else { "dangling" });
    push_str(&mut r, " images on Docker host '");
    push_str(&mut r, host);
    push_str(&mut r, "'. This is irreversible.");
    r
}

/// The parameters kept with a confirmation token of a prune.
pub fn image_prune_params_json(host: &str, prune_all: bool) -> (r: String)
    ensures
        r@ == object_text(seq![("all"@, JsonView::Bool(prune_all)), ("host"@, JsonView::Str(host@))]),
{
    let entries: Vec<(&str, JsonValue)> = vec![
        ("all", JsonValue::Bool(prune_all)),
        ("host", JsonValue::Str(owned(host))),
    ];
    proof {
        reveal_strlit("all");
        reveal_strlit("host");
        reveal_with_fuel(crate::json::keys_ascending, 3);
        reveal_with_fuel(crate::json::text_less, 11);
        assert(crate::json::keys_ascending(crate::json::entries_view(entries@)));
    }
    let r = render_object(&entries);
    assert(crate::json::entries_view(entries@) =~= seq![
        ("all"@, JsonView::Bool(prune_all)),
        ("host"@, JsonView::Str(host@)),
    ]);
    r
}

/// The filters of a prune: only dangling images unless all are pruned.
pub fn image_prune_filters(prune_all: bool) -> (f: Vec<(String, Vec<String>)>)
    ensures
        prune_all ==> f@.len() == 0,
        !prune_all ==> f@.len() == 1 && f@[0].0@ == "dangling"@ && f@[0].1@.len() == 1 && f@[0].1@[0]@
            == "true"@,
{
    let mut f: Vec<(String, Vec<String>)> = Vec::new();
    if !prune_all {
        f.push((owned("dangling"), vec![owned("true")]));
    }
    f
}

/// The report of a prune; the reclaimed space is already written out in
/// megabytes.
pub fn image_prune_report(deleted_count: u64, host: &str, reclaimed_text: &str) -> (r: String)
    ensures
        r@ == "Pruned "@ + decimal(deleted_count as nat) + " images on Docker host '"@ + host@ + "'. Reclaimed "@
            + reclaimed_text@ + " MB."@,
{
    let mut r = owned("Pruned ");
    let n = u64_to_decimal(deleted_count);
    push_str(&mut r, n.as_str());
    push_str(&mut r, " images on Docker host '");
    push_str(&mut r, host);
    push_str(&mut r, "'. Reclaimed ");
    push_str(&mut r, reclaimed_text);
    push_str(&mut r, " MB.");
    r
}

/// The environment lists of an inspected image, under `Config` and
/// `ContainerConfig`; each item is its text, or `None` when it is not a
/// string.
#[derive(Debug)]
pub struct ImageEnv {
    pub config_env: Option<Vec<Option<String>>>,
    pub container_config_env: Option<Vec<Option<String>>>,
}

/// An environment list with the value of every text item hidden.
pub open spec fn redacted_items(before: Seq<Option<String>>, after: Seq<Option<String>>) -> bool {
    &&& after.len() == before.len()
    &&& forall|i: int| 0 <= i < before.len() ==> match #[trigger] before[i] {
        Some(e) => after[i] matches Some(r) && r@ == redacted_entry(e@),
        None => after[i] is None,
    }
}

/// A section with its environment redacted: absent stays absent.
pub open spec fn redacted_section(before: Option<Vec<Option<String>>>, after: Option<Vec<Option<String>>>) -> bool {
    match before {
        None => after is None,
        Some(b) => after matches Some(a) && redacted_items(b@, a@),
    }
}

fn redact_items(items: &Vec<Option<String>>) -> (r: Vec<Option<String>>)
    ensures
        redacted_items(items@, r@),
{
    let mut r: Vec<Option<String>> = Vec::new();
    let mut i: usize = 0;
    while i < items.len()
        invariant
            i <= items@.len(),
            r@.len() == i,
            forall|k: int| 0 <= k < i ==> match #[trigger] items@[k] {
                Some(e) => r@[k] matches Some(x) && x@ == redacted_entry(e@),
                None => r@[k] is None,
            },
        decreases items@.len() - i,
    {
        let item = match &items[i] {
            Some(e) => Some(redact_env_entry(e.as_str())),
            None => None,
        };
        r.push(item);
        i = i + 1;
    }
    r
}

fn redact_section(section: &Option<Vec<Option<String>>>) -> (r: Option<Vec<Option<String>>>)
    ensures
        redacted_section(*section, r),
{
    match section {
        None => None,
        Some(items) => Some(redact_items(items)),
    }
}

/// Hides the values of the environment entries of an inspected image, in
/// both sections.
pub fn redact_image_env(value: &mut ImageEnv)
    ensures
        redacted_section(old(value).config_env, final(value).config_env),
        redacted_section(old(value).container_config_env, final(value).container_config_env),
{
    let c = redact_section(&value.config_env);
    let cc = redact_section(&value.container_config_env);
    value.config_env = c;
    value.container_config_env = cc;
}

proof fn lemma_first_eq_at(s: Seq<char>, i: int)
    requires
        0 <= i < s.len(),
        s[i] == '=',
        forall|j: int| 0 <= j < i ==> s[j] != '=',
    ensures
        s.contains('='),
        first_eq(s) == i,
{
    assert(s[i] == '=');
    let k = first_eq(s);
    assert(0 <= k < s.len() && s[k] == '=' && forall|j: int| 0 <= j < k ==> s[j] != '=');
    if k < i {
        assert(s[k] != '=');
    } else if k > i {
        assert(s[i] != '=');
    }
}

proof fn lemma_first_eq_exists(s: Seq<char>)
    requires
        s.contains('='),
    ensures
        exists|i: int| 0 <= i < s.len() && s[i] == '=' && forall|j: int| 0 <= j < i ==> s[j] != '=',
    decreases s.len(),
{
    let d = s.drop_last();
    if d.contains('=') {
        lemma_first_eq_exists(d);
        let i = choose|i: int| 0 <= i < d.len() && d[i] == '=' && forall|j: int| 0 <= j < i ==> d[j] != '=';
        assert(s[i] == '=' && forall|j: int| 0 <= j < i ==> s[j] != '=') by {
            assert forall|j: int| 0 <= j < i implies s[j] != '=' by {
                assert(s[j] == d[j]);
            }
        }
    } else {
        let k = choose|k: int| 0 <= k < s.len() && s[k] == '=';
        if k < s.len() - 1 {
            assert(d[k] == '=');
        }
        assert forall|j: int| 0 <= j < s.len() - 1 implies s[j] != '=' by {
            assert(s[j] == d[j]);
            if s[j] == '=' {
                assert(d.contains('='));
            }
        }
    }
}

/// Redacting an entry that was already redacted changes nothing.
pub proof fn law_redaction_idempotent(e: Seq<char>)
    ensures
        redacted_entry(redacted_entry(e)) == redacted_entry(e),
{
    if e.contains('=') {
        lemma_first_eq_exists(e);
        let p = first_eq(e);
        assert(0 <= p < e.len() && e[p] == '=' && forall|j: int| 0 <= j < p ==> e[j] != '=');
        let r = e.take(p) + "=<redacted>"@;
        reveal_strlit("=<redacted>");
        assert(r[p] == '=');
        assert forall|j: int| 0 <= j < p implies r[j] != '=' by {
            assert(r[j] == e[j]);
        }
        lemma_first_eq_at(r, p);
        assert(r.take(p) =~= e.take(p));
    }
}

/// The texts of a redacted section's entries.
pub open spec fn section_texts(s: Option<Vec<Option<String>>>) -> Option<Seq<Option<Seq<char>>>> {
    match s {
        Some(v) => Some(v@.map_values(|o: Option<String>| match o {
            Some(x) => Some(x@),
            None => None,
        })),
        None => None,
    }
}

/// Redacting a section twice gives what redacting it once gave.
pub proof fn law_section_redaction_idempotent(
    before: Option<Vec<Option<String>>>,
    once: Option<Vec<Option<String>>>,
    twice: Option<Vec<Option<String>>>,
)
    requires
        redacted_section(before, once),
        redacted_section(once, twice),
    ensures
        section_texts(twice) == section_texts(once),
{
    if let (Some(b), Some(a), Some(c)) = (before, once, twice) {
        assert forall|i: int| 0 <= i < a@.len() implies #[trigger] section_texts(twice)->0[i] == section_texts(once)->0[i] by {
            match b@[i] {
                Some(e) => {
                    law_redaction_idempotent(e@);
                    assert(a@[i] matches Some(r) && r@ == redacted_entry(e@));
                },
                None => {},
            }
            match a@[i] {
                Some(e) => {},
                None => {},
            }
        }
        assert(section_texts(twice)->0 =~= section_texts(once)->0);
    }
}

} // verus!
