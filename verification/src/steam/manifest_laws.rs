//! What a reader finds in the files that tell Steam which apps are installed.

use vstd::prelude::*;

use super::app_info::{AppInfoView, ManifestView};
use super::app_manifest::{
    app_lines, depot_lines, depots_lines, escaped, escaped_from_the_front, field,
    manifest_text, tabs,
};
use crate::decimal::{decimal, decimal_is_digits};
use crate::text::is_digit;

verus! {

/// What a reader of such a file tells apart: quoted texts, and the braces
/// around what belongs together.
pub enum Token {
    Text(Seq<char>),
    Open,
    Close,
}

/// The text up to the quote that ends it, read with a backslash taken as the
/// guard of the character behind it, and what follows that quote.
pub open spec fn quoted(text: Seq<char>) -> (Seq<char>, Seq<char>)
    decreases text.len(),
{
    if text.len() == 0 {
        (Seq::empty(), Seq::empty())
    } else if text[0] == '"' {
        (Seq::empty(), text.skip(1))
    } else if text[0] == '\\' && text.len() > 1 {
        let (word, rest) = quoted(text.skip(2));
        (seq![text[1]] + word, rest)
    } else {
        let (word, rest) = quoted(text.skip(1));
        (seq![text[0]] + word, rest)
    }
}

/// What follows a quoted text is no longer than the whole.
pub proof fn quoted_leaves_less(text: Seq<char>)
    ensures
        quoted(text).1.len() <= text.len(),
    decreases text.len(),
{
    if text.len() == 0 || text[0] == '"' {
    } else if text[0] == '\\' && text.len() > 1 {
        quoted_leaves_less(text.skip(2));
    } else {
        quoted_leaves_less(text.skip(1));
    }
}

/// What a reader finds in a text, in order.
pub open spec fn tokens_of(text: Seq<char>) -> Seq<Token>
    decreases text.len(),
{
    if text.len() == 0 {
        Seq::empty()
    } else if text[0] == '"' {
        proof {
            quoted_leaves_less(text.skip(1));
        }
        seq![Token::Text(quoted(text.skip(1)).0)] + tokens_of(quoted(text.skip(1)).1)
    } else if text[0] == '{' {
        seq![Token::Open] + tokens_of(text.skip(1))
    } else if text[0] == '}' {
        seq![Token::Close] + tokens_of(text.skip(1))
    } else {
        tokens_of(text.skip(1))
    }
}

/// A reader finds `tokens` in a piece of text, whatever follows it.
spec fn reads(piece: Seq<char>, tokens: Seq<Token>) -> bool {
    forall|rest: Seq<char>| #[trigger]
        tokens_of(piece + rest) == tokens + tokens_of(rest)
}

/// Two pieces are read one after the other.
proof fn reads_on(first: Seq<char>, tokens: Seq<Token>, second: Seq<char>, more: Seq<Token>)
    requires
        reads(first, tokens),
        reads(second, more),
    ensures
        reads(first + second, tokens + more),
{
    assert forall|rest: Seq<char>| #[trigger]
        tokens_of((first + second) + rest) == (tokens + more) + tokens_of(rest) by {
        assert((first + second) + rest =~= first + (second + rest));
        assert(tokens_of(first + (second + rest)) == tokens + tokens_of(second + rest));
        assert(tokens_of(second + rest) == more + tokens_of(rest));
        assert(tokens + (more + tokens_of(rest)) =~= (tokens + more) + tokens_of(rest));
    }
}

/// A quoted text is read as the text that was escaped.
proof fn quoted_value(value: Seq<char>, rest: Seq<char>)
    ensures
        quoted(escaped(value) + (seq!['"'] + rest)) == (value, rest),
    decreases value.len(),
{
    let text = escaped(value) + (seq!['"'] + rest);
    if value.len() == 0 {
        assert(text[0] == '"');
        assert(text.skip(1) =~= rest);
        assert(value =~= Seq::empty());
    } else {
        let c = value[0];
        let others = value.drop_first();
        assert(value =~= seq![c] + others);
        escaped_from_the_front(c, others);
        quoted_value(others, rest);
        let tail = escaped(others) + (seq!['"'] + rest);
        if c == '\\' || c == '"' {
            assert(text[0] == '\\');
            assert(text[1] == c);
            assert(text.skip(2) =~= tail);
        } else {
            assert(text[0] == c);
            assert(text.skip(1) =~= tail);
        }
        assert(seq![c] + others =~= value);
    }
}

/// A text without quotes and backslashes stands inside quotes as it is.
proof fn plain_stays(text: Seq<char>)
    requires
        forall|i: int| 0 <= i < text.len() ==> text[i] != '"' && text[i] != '\\',
    ensures
        escaped(text) == text,
    decreases text.len(),
{
    if text.len() > 0 {
        plain_stays(text.drop_last());
        assert(text.last() == text[text.len() - 1]);
        assert(escaped(text) =~= text);
    }
}

/// Characters that a reader passes over.
proof fn blank_reads(text: Seq<char>)
    requires
        forall|i: int|
            0 <= i < text.len() ==> text[i] != '"' && text[i] != '{' && text[i] != '}',
    ensures
        reads(text, Seq::empty()),
    decreases text.len(),
{
    assert forall|rest: Seq<char>| #[trigger]
        tokens_of(text + rest) == Seq::<Token>::empty() + tokens_of(rest) by {
        if text.len() == 0 {
            assert(text + rest =~= rest);
        } else {
            let others = text.drop_first();
            blank_reads(others);
            assert((text + rest)[0] == text[0]);
            assert((text + rest).skip(1) =~= others + rest);
            assert(tokens_of(others + rest) == Seq::<Token>::empty() + tokens_of(rest));
        }
        assert(Seq::<Token>::empty() + tokens_of(rest) =~= tokens_of(rest));
    }
}

/// A value in quotes is read as that value.
proof fn value_reads(value: Seq<char>)
    ensures
        reads(seq!['"'] + escaped(value) + seq!['"'], seq![Token::Text(value)]),
{
    let piece = seq!['"'] + escaped(value) + seq!['"'];
    assert forall|rest: Seq<char>| #[trigger]
        tokens_of(piece + rest) == seq![Token::Text(value)] + tokens_of(rest) by {
        quoted_value(value, rest);
        assert((piece + rest)[0] == '"');
        assert((piece + rest).skip(1) =~= escaped(value) + (seq!['"'] + rest));
    }
}

/// A brace is read as what it is.
proof fn braces_read()
    ensures
        reads(seq!['{'], seq![Token::Open]),
        reads(seq!['}'], seq![Token::Close]),
{
    assert forall|rest: Seq<char>| #[trigger]
        tokens_of(seq!['{'] + rest) == seq![Token::Open] + tokens_of(rest) by {
        assert((seq!['{'] + rest).skip(1) =~= rest);
    }
    assert forall|rest: Seq<char>| #[trigger]
        tokens_of(seq!['}'] + rest) == seq![Token::Close] + tokens_of(rest) by {
        assert((seq!['}'] + rest).skip(1) =~= rest);
    }
}

/// Tabs hold nothing but tabs.
proof fn tabs_are_tabs(n: nat)
    ensures
        forall|i: int| 0 <= i < tabs(n).len() ==> tabs(n)[i] == '\t',
    decreases n,
{
    if n > 0 {
        let fewer = tabs((n - 1) as nat);
        tabs_are_tabs((n - 1) as nat);
        assert forall|i: int| 0 <= i < tabs(n).len() implies tabs(n)[i] == '\t' by {
            if i < fewer.len() {
                assert(tabs(n)[i] == fewer[i]);
            }
        }
    }
}

/// A line with a key and its value is read as the two.
pub proof fn field_is_read_back(indent: nat, key: Seq<char>, value: Seq<char>)
    requires
        forall|i: int| 0 <= i < key.len() ==> key[i] != '"' && key[i] != '\\',
    ensures
        forall|rest: Seq<char>| #[trigger]
            tokens_of(field(indent, key, value) + rest) == seq![
                Token::Text(key),
                Token::Text(value),
            ] + tokens_of(rest),
{
    reveal_strlit("\"");
    reveal_strlit("\"\t\t\"");
    reveal_strlit("\"\n");
    plain_stays(key);
    tabs_are_tabs(indent);
    blank_reads(tabs(indent));
    value_reads(key);
    value_reads(value);
    let gap = seq!['\t', '\t'];
    let end = seq!['\n'];
    blank_reads(gap);
    blank_reads(end);
    let k = seq!['"'] + escaped(key) + seq!['"'];
    let v = seq!['"'] + escaped(value) + seq!['"'];
    let none = Seq::<Token>::empty();
    reads_on(tabs(indent), none, k, seq![Token::Text(key)]);
    reads_on(tabs(indent) + k, none + seq![Token::Text(key)], gap, none);
    reads_on(tabs(indent) + k + gap, none + seq![Token::Text(key)] + none, v, seq![Token::Text(value)]);
    reads_on(
        tabs(indent) + k + gap + v,
        none + seq![Token::Text(key)] + none + seq![Token::Text(value)],
        end,
        none,
    );
    assert(field(indent, key, value) =~= tabs(indent) + k + gap + v + end);
    assert(none + seq![Token::Text(key)] + none + seq![Token::Text(value)] + none =~= seq![
        Token::Text(key),
        Token::Text(value),
    ]);
    assert(reads(field(indent, key, value), seq![Token::Text(key), Token::Text(value)]));
}

/// One more line is read as one more key and its value.
proof fn one_more_field(
    lines: Seq<char>,
    tokens: Seq<Token>,
    indent: nat,
    key: Seq<char>,
    value: Seq<char>,
)
    requires
        reads(lines, tokens),
        forall|i: int| 0 <= i < key.len() ==> key[i] != '"' && key[i] != '\\',
    ensures
        reads(
            lines + field(indent, key, value),
            tokens + seq![Token::Text(key), Token::Text(value)],
        ),
{
    field_is_read_back(indent, key, value);
    reads_on(lines, tokens, field(indent, key, value), seq![Token::Text(key), Token::Text(value)]);
}

/// The keys and values about an app, in order.
pub open spec fn app_tokens(
    app_id: Seq<char>,
    name: Seq<char>,
    install_dir: Seq<char>,
    buildid: Seq<char>,
    size_on_disk: u64,
    last_updated: u64,
) -> Seq<Token> {
    seq![
        Token::Text("appid"@),
        Token::Text(app_id),
        Token::Text("Universe"@),
        Token::Text("1"@),
        Token::Text("name"@),
        Token::Text(name),
        Token::Text("StateFlags"@),
        Token::Text("4"@),
        Token::Text("installdir"@),
        Token::Text(install_dir),
        Token::Text("LastUpdated"@),
        Token::Text(decimal(last_updated as nat)),
        Token::Text("SizeOnDisk"@),
        Token::Text(decimal(size_on_disk as nat)),
        Token::Text("StagingSize"@),
        Token::Text("0"@),
        Token::Text("buildid"@),
        Token::Text(buildid),
        Token::Text("LastOwner"@),
        Token::Text("0"@),
        Token::Text("BytesToDownload"@),
        Token::Text("0"@),
        Token::Text("BytesDownloaded"@),
        Token::Text("0"@),
        Token::Text("BytesStaged"@),
        Token::Text("0"@),
        Token::Text("TargetBuildID"@),
        Token::Text(buildid),
        Token::Text("AutoUpdateBehavior"@),
        Token::Text("0"@),
        Token::Text("AllowOtherDownloadsWhileRunning"@),
        Token::Text("0"@),
        Token::Text("ScheduledAutoUpdate"@),
        Token::Text("0"@),
    ]
}

/// The lines about an app are read as its keys and values.
#[verifier::rlimit(40)]
proof fn app_lines_read(
    app_id: Seq<char>,
    info: AppInfoView,
    total_uncompressed_bytes: u64,
    last_updated: u64,
    name: Seq<char>,
    buildid: Seq<char>,
)
    requires
        info.display_name == Some(name) || info.display_name is None && name == app_id,
        info.buildid == Some(buildid) || info.buildid is None && buildid == "0"@,
    ensures
        reads(
            app_lines(app_id, info, total_uncompressed_bytes, last_updated),
            app_tokens(
                app_id,
                name,
                info.install_dir_name,
                buildid,
                total_uncompressed_bytes,
                last_updated,
            ),
        ),
{
    reveal_strlit("appid");
    reveal_strlit("Universe");
    reveal_strlit("name");
    reveal_strlit("StateFlags");
    reveal_strlit("installdir");
    reveal_strlit("LastUpdated");
    reveal_strlit("SizeOnDisk");
    reveal_strlit("StagingSize");
    reveal_strlit("buildid");
    reveal_strlit("LastOwner");
    reveal_strlit("BytesToDownload");
    reveal_strlit("BytesDownloaded");
    reveal_strlit("BytesStaged");
    reveal_strlit("TargetBuildID");
    reveal_strlit("AutoUpdateBehavior");
    reveal_strlit("AllowOtherDownloadsWhileRunning");
    reveal_strlit("ScheduledAutoUpdate");
    let l0 = field(1, "appid"@, app_id);
    field_is_read_back(1, "appid"@, app_id);
    let t0 = seq![Token::Text("appid"@), Token::Text(app_id)];
    assert(reads(l0, t0));
    one_more_field(l0, t0, 1, "Universe"@, "1"@);
    let l1 = l0 + field(1, "Universe"@, "1"@);
    let t1 = t0 + seq![Token::Text("Universe"@), Token::Text("1"@)];
    one_more_field(l1, t1, 1, "name"@, name);
    let l2 = l1 + field(1, "name"@, name);
    let t2 = t1 + seq![Token::Text("name"@), Token::Text(name)];
    one_more_field(l2, t2, 1, "StateFlags"@, "4"@);
    let l3 = l2 + field(1, "StateFlags"@, "4"@);
    let t3 = t2 + seq![Token::Text("StateFlags"@), Token::Text("4"@)];
    one_more_field(l3, t3, 1, "installdir"@, info.install_dir_name);
    let l4 = l3 + field(1, "installdir"@, info.install_dir_name);
    let t4 = t3 + seq![Token::Text("installdir"@), Token::Text(info.install_dir_name)];
    one_more_field(l4, t4, 1, "LastUpdated"@, decimal(last_updated as nat));
    let l5 = l4 + field(1, "LastUpdated"@, decimal(last_updated as nat));
    let t5 = t4 + seq![Token::Text("LastUpdated"@), Token::Text(decimal(last_updated as nat))];
    one_more_field(l5, t5, 1, "SizeOnDisk"@, decimal(total_uncompressed_bytes as nat));
    let l6 = l5 + field(1, "SizeOnDisk"@, decimal(total_uncompressed_bytes as nat));
    let t6 = t5 + seq![Token::Text("SizeOnDisk"@), Token::Text(decimal(total_uncompressed_bytes as nat))];
    one_more_field(l6, t6, 1, "StagingSize"@, "0"@);
    let l7 = l6 + field(1, "StagingSize"@, "0"@);
    let t7 = t6 + seq![Token::Text("StagingSize"@), Token::Text("0"@)];
    one_more_field(l7, t7, 1, "buildid"@, buildid);
    let l8 = l7 + field(1, "buildid"@, buildid);
    let t8 = t7 + seq![Token::Text("buildid"@), Token::Text(buildid)];
    one_more_field(l8, t8, 1, "LastOwner"@, "0"@);
    let l9 = l8 + field(1, "LastOwner"@, "0"@);
    let t9 = t8 + seq![Token::Text("LastOwner"@), Token::Text("0"@)];
    one_more_field(l9, t9, 1, "BytesToDownload"@, "0"@);
    let l10 = l9 + field(1, "BytesToDownload"@, "0"@);
    let t10 = t9 + seq![Token::Text("BytesToDownload"@), Token::Text("0"@)];
    one_more_field(l10, t10, 1, "BytesDownloaded"@, "0"@);
    let l11 = l10 + field(1, "BytesDownloaded"@, "0"@);
    let t11 = t10 + seq![Token::Text("BytesDownloaded"@), Token::Text("0"@)];
    one_more_field(l11, t11, 1, "BytesStaged"@, "0"@);
    let l12 = l11 + field(1, "BytesStaged"@, "0"@);
    let t12 = t11 + seq![Token::Text("BytesStaged"@), Token::Text("0"@)];
    one_more_field(l12, t12, 1, "TargetBuildID"@, buildid);
    let l13 = l12 + field(1, "TargetBuildID"@, buildid);
    let t13 = t12 + seq![Token::Text("TargetBuildID"@), Token::Text(buildid)];
    one_more_field(l13, t13, 1, "AutoUpdateBehavior"@, "0"@);
    let l14 = l13 + field(1, "AutoUpdateBehavior"@, "0"@);
    let t14 = t13 + seq![Token::Text("AutoUpdateBehavior"@), Token::Text("0"@)];
    one_more_field(l14, t14, 1, "AllowOtherDownloadsWhileRunning"@, "0"@);
    let l15 = l14 + field(1, "AllowOtherDownloadsWhileRunning"@, "0"@);
    let t15 = t14 + seq![Token::Text("AllowOtherDownloadsWhileRunning"@), Token::Text("0"@)];
    one_more_field(l15, t15, 1, "ScheduledAutoUpdate"@, "0"@);
    let l16 = l15 + field(1, "ScheduledAutoUpdate"@, "0"@);
    let t16 = t15 + seq![Token::Text("ScheduledAutoUpdate"@), Token::Text("0"@)];
    assert(l16 == app_lines(app_id, info, total_uncompressed_bytes, last_updated));
    assert(t16 =~= app_tokens(
        app_id,
        name,
        info.install_dir_name,
        buildid,
        total_uncompressed_bytes,
        last_updated,
    ));
}

/// What the file says of the depots whose manifest is known, in order: the
/// depot's id, and inside braces its manifest and its size.
pub open spec fn depot_tokens(depot_ids: Seq<u64>, manifests: Map<u64, ManifestView>) -> Seq<Token>
    decreases depot_ids.len(),
{
    if depot_ids.len() == 0 {
        Seq::empty()
    } else {
        let depot_id = depot_ids.last();
        depot_tokens(depot_ids.drop_last(), manifests) + if manifests.contains_key(depot_id) {
            seq![
                Token::Text(decimal(depot_id as nat)),
                Token::Open,
                Token::Text("manifest"@),
                Token::Text(manifests[depot_id].gid),
                Token::Text("size"@),
                Token::Text(decimal(manifests[depot_id].size as nat)),
                Token::Close,
            ]
        } else {
            Seq::empty()
        }
    }
}

/// The lines about a depot are read as its id, its manifest and its size.
proof fn depot_lines_read(depot_id: u64, manifest: ManifestView)
    ensures
        reads(
            depot_lines(depot_id, manifest),
            seq![
                Token::Text(decimal(depot_id as nat)),
                Token::Open,
                Token::Text("manifest"@),
                Token::Text(manifest.gid),
                Token::Text("size"@),
                Token::Text(decimal(manifest.size as nat)),
                Token::Close,
            ],
        ),
{
    reveal_strlit("\t\t\"");
    reveal_strlit("\"\n\t\t{\n");
    reveal_strlit("\t\t}\n");
    reveal_strlit("manifest");
    reveal_strlit("size");
    let id = decimal(depot_id as nat);
    decimal_is_digits(depot_id as nat);
    assert forall|i: int| 0 <= i < id.len() implies id[i] != '"' && id[i] != '\\' by {
        assert(is_digit(id[i]));
    }
    plain_stays(id);
    value_reads(id);
    braces_read();
    let two = seq!['\t', '\t'];
    let gap = seq!['\n', '\t', '\t'];
    let end = seq!['\n'];
    blank_reads(two);
    blank_reads(gap);
    blank_reads(end);
    let none = Seq::<Token>::empty();
    let q = seq!['"'] + escaped(id) + seq!['"'];
    let t = seq![Token::Text(id)];
    reads_on(two, none, q, t);
    reads_on(two + q, none + t, gap, none);
    reads_on(two + q + gap, none + t + none, seq!['{'], seq![Token::Open]);
    reads_on(two + q + gap + seq!['{'], none + t + none + seq![Token::Open], end, none);
    let head = two + q + gap + seq!['{'] + end;
    let head_tokens = none + t + none + seq![Token::Open] + none;
    one_more_field(head, head_tokens, 3, "manifest"@, manifest.gid);
    let gid = seq![Token::Text("manifest"@), Token::Text(manifest.gid)];
    let size = seq![Token::Text("size"@), Token::Text(decimal(manifest.size as nat))];
    let with_gid = head + field(3, "manifest"@, manifest.gid);
    one_more_field(with_gid, head_tokens + gid, 3, "size"@, decimal(manifest.size as nat));
    let with_size = with_gid + field(3, "size"@, decimal(manifest.size as nat));
    reads_on(with_size, head_tokens + gid + size, two, none);
    reads_on(with_size + two, head_tokens + gid + size + none, seq!['}'], seq![Token::Close]);
    reads_on(
        with_size + two + seq!['}'],
        head_tokens + gid + size + none + seq![Token::Close],
        end,
        none,
    );
    assert(depot_lines(depot_id, manifest) =~= with_size + two + seq!['}'] + end);
    assert(head_tokens + gid + size + none + seq![Token::Close] + none =~= seq![
        Token::Text(decimal(depot_id as nat)),
        Token::Open,
        Token::Text("manifest"@),
        Token::Text(manifest.gid),
        Token::Text("size"@),
        Token::Text(decimal(manifest.size as nat)),
        Token::Close,
    ]);
}

/// The lines about the depots are read one depot after the other.
proof fn depots_lines_read(depot_ids: Seq<u64>, manifests: Map<u64, ManifestView>)
    ensures
        reads(depots_lines(depot_ids, manifests), depot_tokens(depot_ids, manifests)),
    decreases depot_ids.len(),
{
    if depot_ids.len() == 0 {
        blank_reads(Seq::empty());
    } else {
        let earlier = depot_ids.drop_last();
        let depot_id = depot_ids.last();
        depots_lines_read(earlier, manifests);
        if manifests.contains_key(depot_id) {
            depot_lines_read(depot_id, manifests[depot_id]);
            reads_on(
                depots_lines(earlier, manifests),
                depot_tokens(earlier, manifests),
                depot_lines(depot_id, manifests[depot_id]),
                seq![
                    Token::Text(decimal(depot_id as nat)),
                    Token::Open,
                    Token::Text("manifest"@),
                    Token::Text(manifests[depot_id].gid),
                    Token::Text("size"@),
                    Token::Text(decimal(manifests[depot_id].size as nat)),
                    Token::Close,
                ],
            );
        } else {
            assert(depot_tokens(depot_ids, manifests) =~= depot_tokens(earlier, manifests));
        }
    }
}

/// The file read back gives what was looked up of the app and what was
/// downloaded of it, every value whole, whatever characters it holds: its name
/// and its build where the lookup told them, and else its id and no build; the
/// folder; the time and the size; and the manifest and the size of each depot
/// that was downloaded and whose manifest is known.
pub proof fn file_is_read_back(
    app_id: Seq<char>,
    info: AppInfoView,
    total_uncompressed_bytes: u64,
    depot_ids: Seq<u64>,
    last_updated: u64,
    name: Seq<char>,
    buildid: Seq<char>,
)
    requires
        info.display_name == Some(name) || info.display_name is None && name == app_id,
        info.buildid == Some(buildid) || info.buildid is None && buildid == "0"@,
    ensures
        tokens_of(
            manifest_text(app_id, info, total_uncompressed_bytes, depot_ids, last_updated),
        ) == seq![Token::Text("AppState"@), Token::Open] + app_tokens(
            app_id,
            name,
            info.install_dir_name,
            buildid,
            total_uncompressed_bytes,
            last_updated,
        ) + seq![Token::Text("InstalledDepots"@), Token::Open] + depot_tokens(
            depot_ids,
            info.depot_manifests,
        ) + seq![Token::Close, Token::Close],
{
    reveal_strlit("\"AppState\"\n{\n");
    reveal_strlit("\t\"InstalledDepots\"\n\t{\n");
    reveal_strlit("\t}\n}\n");
    reveal_strlit("AppState");
    reveal_strlit("InstalledDepots");
    let none = Seq::<Token>::empty();
    let lines = app_lines(app_id, info, total_uncompressed_bytes, last_updated);
    let lines_tokens = app_tokens(
        app_id,
        name,
        info.install_dir_name,
        buildid,
        total_uncompressed_bytes,
        last_updated,
    );
    let depots = depots_lines(depot_ids, info.depot_manifests);
    let depots_tokens = depot_tokens(depot_ids, info.depot_manifests);
    app_lines_read(app_id, info, total_uncompressed_bytes, last_updated, name, buildid);
    depots_lines_read(depot_ids, info.depot_manifests);
    braces_read();
    let tab = seq!['\t'];
    let line = seq!['\n'];
    let both = seq!['\n', '\t'];
    blank_reads(tab);
    blank_reads(line);
    blank_reads(both);
    plain_stays("AppState"@);
    plain_stays("InstalledDepots"@);
    value_reads("AppState"@);
    value_reads("InstalledDepots"@);
    let state = seq!['"'] + escaped("AppState"@) + seq!['"'];
    let state_tokens = seq![Token::Text("AppState"@)];
    reads_on(state, state_tokens, line, none);
    reads_on(state + line, state_tokens + none, seq!['{'], seq![Token::Open]);
    reads_on(
        state + line + seq!['{'],
        state_tokens + none + seq![Token::Open],
        line,
        none,
    );
    let first = state + line + seq!['{'] + line;
    let first_tokens = seq![Token::Text("AppState"@), Token::Open];
    assert(state_tokens + none + seq![Token::Open] + none =~= first_tokens);
    assert(first =~= "\"AppState\"\n{\n"@);
    let installed = seq!['"'] + escaped("InstalledDepots"@) + seq!['"'];
    let installed_tokens = seq![Token::Text("InstalledDepots"@)];
    reads_on(tab, none, installed, installed_tokens);
    reads_on(tab + installed, none + installed_tokens, both, none);
    reads_on(
        tab + installed + both,
        none + installed_tokens + none,
        seq!['{'],
        seq![Token::Open],
    );
    reads_on(
        tab + installed + both + seq!['{'],
        none + installed_tokens + none + seq![Token::Open],
        line,
        none,
    );
    let second = tab + installed + both + seq!['{'] + line;
    let second_tokens = seq![Token::Text("InstalledDepots"@), Token::Open];
    assert(none + installed_tokens + none + seq![Token::Open] + none =~= second_tokens);
    assert(second =~= "\t\"InstalledDepots\"\n\t{\n"@);
    reads_on(tab, none, seq!['}'], seq![Token::Close]);
    reads_on(tab + seq!['}'], none + seq![Token::Close], line, none);
    reads_on(
        tab + seq!['}'] + line,
        none + seq![Token::Close] + none,
        seq!['}'],
        seq![Token::Close],
    );
    reads_on(
        tab + seq!['}'] + line + seq!['}'],
        none + seq![Token::Close] + none + seq![Token::Close],
        line,
        none,
    );
    let third = tab + seq!['}'] + line + seq!['}'] + line;
    let third_tokens = seq![Token::Close, Token::Close];
    assert(none + seq![Token::Close] + none + seq![Token::Close] + none =~= third_tokens);
    assert(third =~= "\t}\n}\n"@);
    reads_on(first, first_tokens, lines, lines_tokens);
    reads_on(first + lines, first_tokens + lines_tokens, second, second_tokens);
    reads_on(
        first + lines + second,
        first_tokens + lines_tokens + second_tokens,
        depots,
        depots_tokens,
    );
    reads_on(
        first + lines + second + depots,
        first_tokens + lines_tokens + second_tokens + depots_tokens,
        third,
        third_tokens,
    );
    let all = first + lines + second + depots + third;
    let all_tokens = first_tokens + lines_tokens + second_tokens + depots_tokens + third_tokens;
    assert(tokens_of(all + Seq::<char>::empty()) == all_tokens + tokens_of(Seq::empty()));
    assert(all + Seq::<char>::empty() =~= all);
    assert(all_tokens + tokens_of(Seq::<char>::empty()) =~= all_tokens);
}

/// The value that a reader finds for a key in a row of keys, each with its
/// value behind it.
pub open spec fn value_of(tokens: Seq<Token>, key: Seq<char>) -> Option<Seq<char>>
    decreases tokens.len(),
{
    if tokens.len() < 2 {
        None
    } else {
        match (tokens[0], tokens[1]) {
            (Token::Text(found), Token::Text(value)) => if found == key {
                Some(value)
            } else {
                value_of(tokens.skip(2), key)
            },
            _ => None,
        }
    }
}

/// Where the keys at even places up to `at` are others, the value of the key
/// there is the one behind it.
proof fn value_is_found(tokens: Seq<Token>, key: Seq<char>, at: int)
    requires
        0 <= at,
        2 * at + 1 < tokens.len(),
        tokens[2 * at] == Token::Text(key),
        tokens[2 * at + 1] is Text,
        forall|i: int| 0 <= i < 2 * at ==> (#[trigger] tokens[i]) is Text,
        forall|i: int| 0 <= i < at ==> #[trigger] key_at(tokens, i) != key,
    ensures
        value_of(tokens, key) == Some(tokens[2 * at + 1]->Text_0),
    decreases at,
{
    if at > 0 {
        assert(key_at(tokens, 0) != key);
        assert(tokens[0] is Text);
        assert(tokens[1] is Text);
        let rest = tokens.skip(2);
        assert(rest[2 * (at - 1)] == tokens[2 * at]);
        assert(rest[2 * (at - 1) + 1] == tokens[2 * at + 1]);
        assert forall|i: int| 0 <= i < 2 * (at - 1) implies (#[trigger] rest[i]) is Text by {
            assert(rest[i] == tokens[i + 2]);
        }
        assert forall|i: int| 0 <= i < at - 1 implies #[trigger] key_at(rest, i) != key by {
            assert(key_at(rest, i) == key_at(tokens, i + 1));
        }
        value_is_found(rest, key, at - 1);
    }
}

/// The key at one of the even places of a row.
spec fn key_at(tokens: Seq<Token>, i: int) -> Seq<char> {
    tokens[2 * i]->Text_0
}

/// The keys about an app are all different.
proof fn keys_differ()
    ensures
        "appid"@ != "name"@,
        "Universe"@ != "name"@,
        "appid"@ != "StateFlags"@,
        "Universe"@ != "StateFlags"@,
        "name"@ != "StateFlags"@,
        "appid"@ != "installdir"@,
        "Universe"@ != "installdir"@,
        "name"@ != "installdir"@,
        "StateFlags"@ != "installdir"@,
        "appid"@ != "LastUpdated"@,
        "Universe"@ != "LastUpdated"@,
        "name"@ != "LastUpdated"@,
        "StateFlags"@ != "LastUpdated"@,
        "installdir"@ != "LastUpdated"@,
        "appid"@ != "SizeOnDisk"@,
        "Universe"@ != "SizeOnDisk"@,
        "name"@ != "SizeOnDisk"@,
        "StateFlags"@ != "SizeOnDisk"@,
        "installdir"@ != "SizeOnDisk"@,
        "LastUpdated"@ != "SizeOnDisk"@,
        "appid"@ != "buildid"@,
        "Universe"@ != "buildid"@,
        "name"@ != "buildid"@,
        "StateFlags"@ != "buildid"@,
        "installdir"@ != "buildid"@,
        "LastUpdated"@ != "buildid"@,
        "SizeOnDisk"@ != "buildid"@,
        "StagingSize"@ != "buildid"@,
        "appid"@ != "TargetBuildID"@,
        "Universe"@ != "TargetBuildID"@,
        "name"@ != "TargetBuildID"@,
        "StateFlags"@ != "TargetBuildID"@,
        "installdir"@ != "TargetBuildID"@,
        "LastUpdated"@ != "TargetBuildID"@,
        "SizeOnDisk"@ != "TargetBuildID"@,
        "StagingSize"@ != "TargetBuildID"@,
        "buildid"@ != "TargetBuildID"@,
        "LastOwner"@ != "TargetBuildID"@,
        "BytesToDownload"@ != "TargetBuildID"@,
        "BytesDownloaded"@ != "TargetBuildID"@,
        "BytesStaged"@ != "TargetBuildID"@,
{
    reveal_strlit("appid");
    reveal_strlit("Universe");
    reveal_strlit("name");
    reveal_strlit("StateFlags");
    reveal_strlit("installdir");
    reveal_strlit("LastUpdated");
    reveal_strlit("SizeOnDisk");
    reveal_strlit("StagingSize");
    reveal_strlit("buildid");
    reveal_strlit("LastOwner");
    reveal_strlit("BytesToDownload");
    reveal_strlit("BytesDownloaded");
    reveal_strlit("BytesStaged");
    reveal_strlit("TargetBuildID");
    assert("appid"@.len() != "name"@.len());
    assert("Universe"@.len() != "name"@.len());
    assert("appid"@.len() != "StateFlags"@.len());
    assert("Universe"@.len() != "StateFlags"@.len());
    assert("name"@.len() != "StateFlags"@.len());
    assert("appid"@.len() != "installdir"@.len());
    assert("Universe"@.len() != "installdir"@.len());
    assert("name"@.len() != "installdir"@.len());
    assert("StateFlags"@[0] != "installdir"@[0]);
    assert("appid"@.len() != "LastUpdated"@.len());
    assert("Universe"@.len() != "LastUpdated"@.len());
    assert("name"@.len() != "LastUpdated"@.len());
    assert("StateFlags"@.len() != "LastUpdated"@.len());
    assert("installdir"@.len() != "LastUpdated"@.len());
    assert("appid"@.len() != "SizeOnDisk"@.len());
    assert("Universe"@.len() != "SizeOnDisk"@.len());
    assert("name"@.len() != "SizeOnDisk"@.len());
    assert("StateFlags"@[1] != "SizeOnDisk"@[1]);
    assert("installdir"@[0] != "SizeOnDisk"@[0]);
    assert("LastUpdated"@.len() != "SizeOnDisk"@.len());
    assert("appid"@.len() != "buildid"@.len());
    assert("Universe"@.len() != "buildid"@.len());
    assert("name"@.len() != "buildid"@.len());
    assert("StateFlags"@.len() != "buildid"@.len());
    assert("installdir"@.len() != "buildid"@.len());
    assert("LastUpdated"@.len() != "buildid"@.len());
    assert("SizeOnDisk"@.len() != "buildid"@.len());
    assert("StagingSize"@.len() != "buildid"@.len());
    assert("appid"@.len() != "TargetBuildID"@.len());
    assert("Universe"@.len() != "TargetBuildID"@.len());
    assert("name"@.len() != "TargetBuildID"@.len());
    assert("StateFlags"@.len() != "TargetBuildID"@.len());
    assert("installdir"@.len() != "TargetBuildID"@.len());
    assert("LastUpdated"@.len() != "TargetBuildID"@.len());
    assert("SizeOnDisk"@.len() != "TargetBuildID"@.len());
    assert("StagingSize"@.len() != "TargetBuildID"@.len());
    assert("buildid"@.len() != "TargetBuildID"@.len());
    assert("LastOwner"@.len() != "TargetBuildID"@.len());
    assert("BytesToDownload"@.len() != "TargetBuildID"@.len());
    assert("BytesDownloaded"@.len() != "TargetBuildID"@.len());
    assert("BytesStaged"@.len() != "TargetBuildID"@.len());
}

/// Where each key about an app stands in a row that begins with them.
proof fn row_holds(
    app_id: Seq<char>,
    name: Seq<char>,
    install_dir: Seq<char>,
    buildid: Seq<char>,
    size_on_disk: u64,
    last_updated: u64,
    after: Seq<Token>,
)
    ensures
        ({
            let row = app_tokens(
                app_id,
                name,
                install_dir,
                buildid,
                size_on_disk,
                last_updated,
            ) + after;
            &&& row.len() >= 34
            &&& forall|i: int| 0 <= i < 28 ==> (#[trigger] row[i]) is Text
            &&& key_at(row, 0) == "appid"@
            &&& row[1] == Token::Text(app_id)
            &&& key_at(row, 1) == "Universe"@
            &&& row[3] == Token::Text("1"@)
            &&& key_at(row, 2) == "name"@
            &&& row[5] == Token::Text(name)
            &&& key_at(row, 3) == "StateFlags"@
            &&& row[7] == Token::Text("4"@)
            &&& key_at(row, 4) == "installdir"@
            &&& row[9] == Token::Text(install_dir)
            &&& key_at(row, 5) == "LastUpdated"@
            &&& row[11] == Token::Text(decimal(last_updated as nat))
            &&& key_at(row, 6) == "SizeOnDisk"@
            &&& row[13] == Token::Text(decimal(size_on_disk as nat))
            &&& key_at(row, 7) == "StagingSize"@
            &&& row[15] == Token::Text("0"@)
            &&& key_at(row, 8) == "buildid"@
            &&& row[17] == Token::Text(buildid)
            &&& key_at(row, 9) == "LastOwner"@
            &&& row[19] == Token::Text("0"@)
            &&& key_at(row, 10) == "BytesToDownload"@
            &&& row[21] == Token::Text("0"@)
            &&& key_at(row, 11) == "BytesDownloaded"@
            &&& row[23] == Token::Text("0"@)
            &&& key_at(row, 12) == "BytesStaged"@
            &&& row[25] == Token::Text("0"@)
            &&& key_at(row, 13) == "TargetBuildID"@
            &&& row[27] == Token::Text(buildid)
        }),
{
    let head = app_tokens(app_id, name, install_dir, buildid, size_on_disk, last_updated);
    let row = head + after;
    assert(row[0] == head[0]);
    assert(row[1] == head[1]);
    assert(row[2] == head[2]);
    assert(row[3] == head[3]);
    assert(row[4] == head[4]);
    assert(row[5] == head[5]);
    assert(row[6] == head[6]);
    assert(row[7] == head[7]);
    assert(row[8] == head[8]);
    assert(row[9] == head[9]);
    assert(row[10] == head[10]);
    assert(row[11] == head[11]);
    assert(row[12] == head[12]);
    assert(row[13] == head[13]);
    assert(row[14] == head[14]);
    assert(row[15] == head[15]);
    assert(row[16] == head[16]);
    assert(row[17] == head[17]);
    assert(row[18] == head[18]);
    assert(row[19] == head[19]);
    assert(row[20] == head[20]);
    assert(row[21] == head[21]);
    assert(row[22] == head[22]);
    assert(row[23] == head[23]);
    assert(row[24] == head[24]);
    assert(row[25] == head[25]);
    assert(row[26] == head[26]);
    assert(row[27] == head[27]);
}

/// The values that a reader finds in the file: behind `name` the name that was
/// looked up and behind `buildid` and `TargetBuildID` the build that was,
/// whatever they are, and only where there was none the app's id and 0; the
/// app's id and folder; and in decimals the size and the time.
#[verifier::rlimit(60)]
pub proof fn values_are_those_looked_up(
    app_id: Seq<char>,
    info: AppInfoView,
    total_uncompressed_bytes: u64,
    depot_ids: Seq<u64>,
    last_updated: u64,
)
    ensures
        ({
            let file = tokens_of(
                manifest_text(app_id, info, total_uncompressed_bytes, depot_ids, last_updated),
            ).skip(2);
            &&& value_of(file, "name"@) == match info.display_name {
                Some(name) => Some(name),
                None => Some(app_id),
            }
            &&& value_of(file, "buildid"@) == match info.buildid {
                Some(buildid) => Some(buildid),
                None => Some("0"@),
            }
            &&& value_of(file, "TargetBuildID"@) == value_of(file, "buildid"@)
            &&& value_of(file, "appid"@) == Some(app_id)
            &&& value_of(file, "installdir"@) == Some(info.install_dir_name)
            &&& value_of(file, "SizeOnDisk"@) == Some(decimal(total_uncompressed_bytes as nat))
            &&& value_of(file, "LastUpdated"@) == Some(decimal(last_updated as nat))
            &&& value_of(file, "StateFlags"@) == Some("4"@)
        }),
{
    let name = match info.display_name {
        Some(name) => name,
        None => app_id,
    };
    let buildid = match info.buildid {
        Some(buildid) => buildid,
        None => "0"@,
    };
    file_is_read_back(
        app_id,
        info,
        total_uncompressed_bytes,
        depot_ids,
        last_updated,
        name,
        buildid,
    );
    let all = tokens_of(
        manifest_text(app_id, info, total_uncompressed_bytes, depot_ids, last_updated),
    );
    let file = all.skip(2);
    let row = app_tokens(
        app_id,
        name,
        info.install_dir_name,
        buildid,
        total_uncompressed_bytes,
        last_updated,
    );
    assert(file =~= row + all.skip(36));
    row_holds(
        app_id,
        name,
        info.install_dir_name,
        buildid,
        total_uncompressed_bytes,
        last_updated,
        all.skip(36),
    );
    keys_differ();
    value_is_found(file, "appid"@, 0);
    value_is_found(file, "name"@, 2);
    value_is_found(file, "StateFlags"@, 3);
    value_is_found(file, "installdir"@, 4);
    value_is_found(file, "LastUpdated"@, 5);
    value_is_found(file, "SizeOnDisk"@, 6);
    value_is_found(file, "buildid"@, 8);
    value_is_found(file, "TargetBuildID"@, 13);
}

} // verus!
