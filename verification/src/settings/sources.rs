//! Values that environment variables other than the `EDEN_` ones bring
//! into the settings.

use vstd::prelude::*;

verus! {

/// What reading an environment variable gave: its text, nothing because
/// it is not set, or an error because its value is not Unicode.
#[derive(Clone, Debug)]
pub enum EnvRead {
    Value(String),
    Unset,
    Invalid,
}

/// How a value enters the settings: over what the files and `EDEN_`
/// variables say, or only where they say nothing.
#[derive(Clone, Copy, Debug, PartialEq, Eq, Structural)]
pub enum SourceKind {
    Override,
    Default,
}

/// A settings key and the value an environment variable gives it.
#[derive(Clone, Debug)]
pub struct SettingsSource {
    pub key: &'static str,
    pub value: String,
    pub kind: SourceKind,
}

/// The environment variable that could not be read.
#[derive(Clone, Copy, Debug, PartialEq, Eq, Structural)]
pub enum EnvVar {
    DatabaseUrl,
    DiscordBotToken,
    RustLog,
}

impl EnvVar {
    /// The variable's name.
    pub fn name(&self) -> (r: &'static str)
        ensures
            r@ == (match *self {
                EnvVar::DatabaseUrl => "DATABASE_URL"@,
                EnvVar::DiscordBotToken => "DISCORD_BOT_TOKEN"@,
                EnvVar::RustLog => "RUST_LOG"@,
            }),
    {
        match self {
            EnvVar::DatabaseUrl => "DATABASE_URL",
            EnvVar::DiscordBotToken => "DISCORD_BOT_TOKEN",
            EnvVar::RustLog => "RUST_LOG",
        }
    }
}

/// The first of three reads that did not fail, or the last one: a read
/// that finds the variable unset is taken, and the next ones are not
/// looked at.
pub open spec fn first_readable(a: EnvRead, b: EnvRead, c: EnvRead) -> EnvRead {
    if !(a is Invalid) {
        a
    } else if !(b is Invalid) {
        b
    } else {
        c
    }
}

/// A source as plain values.
pub open spec fn source_view(s: SettingsSource) -> (Seq<char>, Seq<char>, SourceKind) {
    (s.key@, s.value@, s.kind)
}

/// The sources that the reads give, in order: outside release builds,
/// `DATABASE_URL` over `database.url`; the token of `TOKEN`, else of
/// `BOT_TOKEN`, else of `DISCORD_BOT_TOKEN`, as the default of
/// `bot.token`; `RUST_LOG` over `logging.targets`. The first read that
/// failed, in that order, is the error.
pub open spec fn spec_alternative_sources(
    is_release: bool,
    database_url: EnvRead,
    token: EnvRead,
    bot_token: EnvRead,
    discord_bot_token: EnvRead,
    rust_log: EnvRead,
) -> Result<Seq<(Seq<char>, Seq<char>, SourceKind)>, EnvVar> {
    let t = first_readable(token, bot_token, discord_bot_token);
    if !is_release && database_url is Invalid {
        Err(EnvVar::DatabaseUrl)
    } else if t is Invalid {
        Err(EnvVar::DiscordBotToken)
    } else if rust_log is Invalid {
        Err(EnvVar::RustLog)
    } else {
        let a: Seq<(Seq<char>, Seq<char>, SourceKind)> = if !is_release && database_url is Value {
            seq![("database.url"@, database_url->0@, SourceKind::Override)]
        } else {
            Seq::empty()
        };
        let b = if t is Value { a.push(("bot.token"@, t->0@, SourceKind::Default)) } else { a };
        if rust_log is Value { Ok(b.push(("logging.targets"@, rust_log->0@, SourceKind::Override))) } else { Ok(b) }
    }
}

/// The settings that the variables `DATABASE_URL` (read outside release
/// builds only), `TOKEN`, `BOT_TOKEN`, `DISCORD_BOT_TOKEN` and `RUST_LOG`
/// give, as read.
pub fn alternative_sources(
    is_release: bool,
    database_url: EnvRead,
    token: EnvRead,
    bot_token: EnvRead,
    discord_bot_token: EnvRead,
    rust_log: EnvRead,
) -> (r: Result<Vec<SettingsSource>, EnvVar>)
    ensures
        match r {
            Ok(v) => spec_alternative_sources(is_release, database_url, token, bot_token, discord_bot_token, rust_log)
                == Ok::<Seq<(Seq<char>, Seq<char>, SourceKind)>, EnvVar>(v@.map_values(|s: SettingsSource| source_view(s))),
            Err(e) => spec_alternative_sources(is_release, database_url, token, bot_token, discord_bot_token, rust_log)
                == Err::<Seq<(Seq<char>, Seq<char>, SourceKind)>, EnvVar>(e),
        },
{
    let ghost t = first_readable(token, bot_token, discord_bot_token);
    let mut r: Vec<SettingsSource> = Vec::new();
    if !is_release {
        match database_url {
            EnvRead::Invalid => return Err(EnvVar::DatabaseUrl),
            EnvRead::Value(v) => r.push(SettingsSource { key: "database.url", value: v, kind: SourceKind::Override }),
            EnvRead::Unset => {},
        }
    }
    let ghost a = r@.map_values(|s: SettingsSource| source_view(s));
    let chosen = match token {
        EnvRead::Invalid => match bot_token {
            EnvRead::Invalid => discord_bot_token,
            other => other,
        },
        other => other,
    };
    assert(chosen == t);
    match chosen {
        EnvRead::Invalid => return Err(EnvVar::DiscordBotToken),
        EnvRead::Value(v) => r.push(SettingsSource { key: "bot.token", value: v, kind: SourceKind::Default }),
        EnvRead::Unset => {},
    }
    let ghost b = r@.map_values(|s: SettingsSource| source_view(s));
    match rust_log {
        EnvRead::Invalid => return Err(EnvVar::RustLog),
        EnvRead::Value(v) => r.push(SettingsSource { key: "logging.targets", value: v, kind: SourceKind::Override }),
        EnvRead::Unset => {},
    }
    proof {
        let expected = spec_alternative_sources(is_release, database_url, token, bot_token, discord_bot_token, rust_log);
        assert(expected is Ok);
        assert(r@.map_values(|s: SettingsSource| source_view(s)) =~= expected->Ok_0);
    }
    Ok(r)
}

/// A release build never looks at `DATABASE_URL`: whatever it holds, the
/// sources are the same.
pub proof fn law_release_ignores_database_url(x: EnvRead, y: EnvRead, t: EnvRead, b: EnvRead, d: EnvRead, l: EnvRead)
    ensures
        spec_alternative_sources(true, x, t, b, d, l) == spec_alternative_sources(true, y, t, b, d, l),
{
}

/// `TOKEN`, once readable (set or unset), hides `BOT_TOKEN` and
/// `DISCORD_BOT_TOKEN`; `BOT_TOKEN`, once readable, hides
/// `DISCORD_BOT_TOKEN`.
pub proof fn law_readable_token_hides_the_later_ones(
    rel: bool, db: EnvRead, t: EnvRead, b1: EnvRead, d1: EnvRead, b2: EnvRead, d2: EnvRead, l: EnvRead,
)
    ensures
        !(t is Invalid) ==> spec_alternative_sources(rel, db, t, b1, d1, l) == spec_alternative_sources(rel, db, t, b2, d2, l),
        !(b1 is Invalid) ==> spec_alternative_sources(rel, db, EnvRead::Invalid, b1, d1, l)
            == spec_alternative_sources(rel, db, EnvRead::Invalid, b1, d2, l),
{
}

/// Outside release builds, with every variable set, the sources are the
/// database address over `database.url`, the token as the default of
/// `bot.token` and the log targets over `logging.targets`, in that order;
/// with every variable unset there are none.
pub proof fn law_sources_of_set_variables(u: String, k: String, g: String, b: EnvRead, d: EnvRead)
    ensures
        spec_alternative_sources(false, EnvRead::Value(u), EnvRead::Value(k), b, d, EnvRead::Value(g))
            == Ok::<Seq<(Seq<char>, Seq<char>, SourceKind)>, EnvVar>(seq![
                ("database.url"@, u@, SourceKind::Override),
                ("bot.token"@, k@, SourceKind::Default),
                ("logging.targets"@, g@, SourceKind::Override),
            ]),
        spec_alternative_sources(false, EnvRead::Unset, EnvRead::Unset, b, d, EnvRead::Unset)
            == Ok::<Seq<(Seq<char>, Seq<char>, SourceKind)>, EnvVar>(Seq::empty()),
{
    let r = spec_alternative_sources(false, EnvRead::Value(u), EnvRead::Value(k), b, d, EnvRead::Value(g));
    let expected: Seq<(Seq<char>, Seq<char>, SourceKind)> = seq![
        ("database.url"@, u@, SourceKind::Override),
        ("bot.token"@, k@, SourceKind::Default),
        ("logging.targets"@, g@, SourceKind::Override),
    ];
    assert(r->Ok_0 =~= expected);
    let e = spec_alternative_sources(false, EnvRead::Unset, EnvRead::Unset, b, d, EnvRead::Unset);
    assert(e->Ok_0 =~= Seq::<(Seq<char>, Seq<char>, SourceKind)>::empty());
}

/// The error names the first variable that could not be read, in the
/// order `DATABASE_URL` (outside release builds), the token (when none of
/// the three could be read), `RUST_LOG`.
pub proof fn law_first_unreadable_variable_is_the_error(rel: bool, db: EnvRead, t: EnvRead, b: EnvRead, d: EnvRead, l: EnvRead)
    ensures
        !rel && db is Invalid ==> spec_alternative_sources(rel, db, t, b, d, l) == Err::<Seq<(Seq<char>, Seq<char>, SourceKind)>, EnvVar>(EnvVar::DatabaseUrl),
        (rel || !(db is Invalid)) && t is Invalid && b is Invalid && d is Invalid
            ==> spec_alternative_sources(rel, db, t, b, d, l) == Err::<Seq<(Seq<char>, Seq<char>, SourceKind)>, EnvVar>(EnvVar::DiscordBotToken),
        (rel || !(db is Invalid)) && !(t is Invalid) && l is Invalid
            ==> spec_alternative_sources(rel, db, t, b, d, l) == Err::<Seq<(Seq<char>, Seq<char>, SourceKind)>, EnvVar>(EnvVar::RustLog),
        !(db is Invalid) && !(t is Invalid) && !(l is Invalid) ==> spec_alternative_sources(rel, db, t, b, d, l) is Ok,
{
}

} // verus!
