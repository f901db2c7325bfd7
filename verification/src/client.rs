//! What the command line client decides between its calls to the service.

use vstd::prelude::*;
use vstd::string::*;

use crate::text::{
    parse_unsigned, same_text, strip_prefix, stripped_of, text_view, trim, trim_char, trimmed, unsigned_usize,
};
use crate::types::{AddApiKey, AddDnsRecord, DnsRecord, SyncResponse, Timestamp, Zone};

verus! {

/// What the client keeps between its runs: the token of the signed-in user,
/// and the API key that the daemon syncs with, once there is one.
#[derive(Debug, Clone)]
pub struct Config {
    pub access_token: String,
    pub token_type: String,
    pub expires_at: Option<Timestamp>,
    pub api_key: Option<String>,
}

/// The configuration after a sign-in: the new token, as a bearer token
/// without a known expiry, and the API key that was configured before, if
/// one was.
pub fn store_device_token(access_token: String, existing: Option<Config>) -> (r: Config)
    ensures
        r.access_token == access_token,
        r.token_type@ == "Bearer"@,
        r.expires_at is None,
        r.api_key == match existing {
            Some(config) => config.api_key,
            None => None,
        },
{
    let api_key = match existing {
        Some(config) => config.api_key,
        None => None,
    };
    Config { access_token, token_type: String::from_str("Bearer"), expires_at: None, api_key }
}

/// The configuration with this API key, and all else as it was.
pub fn save_api_key(config: Config, api_key: &str) -> (r: Config)
    ensures
        r.api_key is Some,
        r.api_key->Some_0@ == api_key@,
        r.access_token == config.access_token,
        r.token_type == config.token_type,
        r.expires_at == config.expires_at,
{
    Config {
        access_token: config.access_token,
        token_type: config.token_type,
        expires_at: config.expires_at,
        api_key: Some(String::from_str(api_key)),
    }
}

/// The API key that a sync is made with, where one is configured.
pub fn configured_api_key(config: &Config) -> (r: Result<&String, String>)
    ensures
        match config.api_key {
            Some(key) => r == Ok::<&String, String>(&key),
            None => r is Err && r->Err_0@ == "No API key configured. Run 'drago setup' first."@,
        },
{
    match &config.api_key {
        Some(key) => Ok(key),
        None => Err(String::from_str("No API key configured. Run 'drago setup' first.")),
    }
}

/// Calls `dirs::home_dir`, and writes the path as text. The home directory
/// depends on the environment, so nothing is claimed of it.
#[verifier::external_body]
fn home_dir() -> Option<String> {
    dirs::home_dir().map(|home| home.to_string_lossy().into_owned())
}

/// A path with one more component, as it is written on Unix.
pub open spec fn joined(base: Seq<char>, part: Seq<char>) -> Seq<char> {
    if base.len() == 0 {
        part
    } else if base.last() == '/' {
        base + part
    } else {
        base + seq!['/'] + part
    }
}

/// Where the configuration is kept: in `.config/drago/config.json` under the
/// home directory, or under the current directory where no home is known.
pub open spec fn config_path(home: Option<Seq<char>>) -> Seq<char> {
    let base = match home {
        Some(home) => home,
        None => seq!['.'],
    };
    joined(joined(joined(base, ".config"@), "drago"@), "config.json"@)
}

/// Appends a component to a path.
fn join(base: String, part: &str) -> (r: String)
    ensures
        r@ == joined(base@, part@),
{
    let n = base.as_str().unicode_len();
    if n == 0 {
        String::from_str(part)
    } else if base.as_str().get_char(n - 1) == '/' {
        base.concat(part)
    } else {
        proof {
            reveal_strlit("/");
            assert("/"@ =~= seq!['/']);
        }
        base.concat("/").concat(part)
    }
}

/// Where the configuration is kept under a home directory.
pub fn config_path_under(home: Option<&str>) -> (r: String)
    ensures
        r@ == config_path(text_view(home)),
{
    let base = match home {
        Some(home) => String::from_str(home),
        None => {
            proof {
                reveal_strlit(".");
                assert("."@ =~= seq!['.']);
            }
            String::from_str(".")
        },
    };
    join(join(join(base, ".config"), "drago"), "config.json")
}

/// Where the configuration is kept for the user who runs the client.
pub fn get_config_path() -> (r: String)
    ensures
        exists|home: Option<Seq<char>>| r@ == config_path(home),
{
    let home = home_dir();
    match &home {
        Some(home) => {
            let r = config_path_under(Some(home.as_str()));
            assert(r@ == config_path(Some(home@)));
            r
        },
        None => {
            let r = config_path_under(None);
            assert(r@ == config_path(None));
            r
        },
    }
}

/// How a boolean is written.
pub open spec fn bool_text(b: bool) -> Seq<char> {
    if b {
        "true"@
    } else {
        "false"@
    }
}

/// What the client reports of the service's answer to a sync call: the
/// answer's own message where it could be read, as a success or as an error
/// as the answer says, and the raw body where it could not.
pub open spec fn sync_report(body: Seq<char>, answer: Option<SyncResponse>) -> Result<Seq<char>, Seq<char>> {
    match answer {
        Some(answer) => if answer.success {
            Ok("Sync succeeded (record updated: "@ + bool_text(answer.updated) + "): "@ + answer.message@)
        } else {
            Err("API error: "@ + answer.message@)
        },
        None => Ok("Sync completed but unexpected response: "@ + body),
    }
}

/// The view of a report.
pub open spec fn report_view(r: Result<String, String>) -> Result<Seq<char>, Seq<char>> {
    match r {
        Ok(s) => Ok(s@),
        Err(s) => Err(s@),
    }
}

/// Reports the service's answer to a sync call. `body` is the answer as it
/// came, and `answer` what was read from it, if it could be read.
pub fn sync_ip_to_api(body: &str, answer: Option<&SyncResponse>) -> (r: Result<String, String>)
    ensures
        report_view(r) == sync_report(
            body@,
            match answer {
                Some(a) => Some(*a),
                None => None,
            },
        ),
{
    match answer {
        Some(answer) => {
            if answer.success {
                let updated = if answer.updated {
                    "true"
                } else {
                    "false"
                };
                Ok(
                    String::from_str("Sync succeeded (record updated: ").concat(updated).concat("): ").concat(
                        answer.message.as_str(),
                    ),
                )
            } else {
                Err(String::from_str("API error: ").concat(answer.message.as_str()))
            }
        },
        None => Ok(String::from_str("Sync completed but unexpected response: ").concat(body)),
    }
}

/// The zones of a listing, each with its id and its name.
pub fn list_zones(data: &Vec<(Zone, Vec<DnsRecord>)>) -> (r: Vec<(String, String)>)
    ensures
        r@.len() == data@.len(),
        forall|i: int| 0 <= i < data@.len() ==> #[trigger] r@[i] == (data@[i].0.id, data@[i].0.name),
{
    let mut zones: Vec<(String, String)> = Vec::new();
    let mut i: usize = 0;
    while i < data.len()
        invariant
            0 <= i <= data@.len(),
            zones@.len() == i,
            forall|j: int| 0 <= j < i ==> #[trigger] zones@[j] == (data@[j].0.id, data@[j].0.name),
        decreases data@.len() - i,
    {
        zones.push((data[i].0.id.clone(), data[i].0.name.clone()));
        i += 1;
    }
    zones
}

/// The records of a listing, zone after zone.
pub open spec fn all_records(data: Seq<(Zone, Vec<DnsRecord>)>) -> Seq<DnsRecord>
    decreases data.len(),
{
    if data.len() == 0 {
        Seq::empty()
    } else {
        all_records(data.drop_last()) + data.last().1@
    }
}

/// The records of a listing, zone after zone.
pub fn list_records(data: Vec<(Zone, Vec<DnsRecord>)>) -> (r: Vec<DnsRecord>)
    ensures
        r@ == all_records(data@),
{
    let mut data = data;
    let ghost whole = data@;
    let mut records: Vec<DnsRecord> = Vec::new();
    while data.len() > 0
        invariant
            all_records(whole) == all_records(data@) + records@,
        decreases data@.len(),
    {
        let ghost before = data@;
        let ghost behind = records@;
        let (_, mut of_zone) = data.pop().unwrap();
        proof {
            assert(data@ =~= before.drop_last());
            assert(all_records(before) == all_records(data@) + of_zone@);
            assert((all_records(data@) + of_zone@) + behind =~= all_records(data@) + (of_zone@ + behind));
        }
        of_zone.append(&mut records);
        records = of_zone;
    }
    proof {
        assert(all_records(data@) =~= Seq::<DnsRecord>::empty());
        assert(all_records(whole) =~= records@);
    }
    records
}

/// Whether the zone at this index is the first with this id.
pub open spec fn is_first_zone(zones: Seq<(String, String)>, zone_id: Seq<char>, i: int) -> bool {
    &&& 0 <= i < zones.len()
    &&& zones[i].0@ == zone_id
    &&& forall|j: int| 0 <= j < i ==> (#[trigger] zones[j]).0@ != zone_id
}

/// The request that creates an address record for a subdomain in one of the
/// user's zones: with the address the client has seen, or `0.0.0.0` where it
/// has seen none, and not proxied. There is no request for a zone that is not
/// among the user's.
pub fn add_record(zones: &Vec<(String, String)>, zone_id: &str, subdomain: &str, ttl: i32, ip: Option<String>) -> (r:
    Result<AddDnsRecord, String>)
    ensures
        match r {
            Ok(request) => {
                &&& exists|i: int| #[trigger]
                    is_first_zone(zones@, zone_id@, i) && request.zone_name@ == zones@[i].1@
                &&& request.zone_id@ == zone_id@
                &&& request.record_type@ == "A"@
                &&& request.name@ == subdomain@
                &&& request.content@ == match ip {
                    Some(ip) => ip@,
                    None => "0.0.0.0"@,
                }
                &&& request.ttl == ttl
                &&& !request.proxied
            },
            Err(why) => why@ == "Zone not found"@ && forall|i: int|
                0 <= i < zones@.len() ==> (#[trigger] zones@[i]).0@ != zone_id@,
        },
{
    let mut i: usize = 0;
    while i < zones.len()
        invariant
            0 <= i <= zones@.len(),
            forall|j: int| 0 <= j < i ==> (#[trigger] zones@[j]).0@ != zone_id@,
        decreases zones@.len() - i,
    {
        if same_text(zones[i].0.as_str(), zone_id) {
            assert(is_first_zone(zones@, zone_id@, i as int));
            let content = match ip {
                Some(ip) => ip,
                None => String::from_str("0.0.0.0"),
            };
            return Ok(
                AddDnsRecord {
                    zone_id: String::from_str(zone_id),
                    zone_name: zones[i].1.clone(),
                    record_type: String::from_str("A"),
                    name: String::from_str(subdomain),
                    content,
                    ttl,
                    proxied: false,
                },
            );
        }
        i += 1;
    }
    Err(String::from_str("Zone not found"))
}

/// The request for an API key for the record that was just created for a
/// subdomain: the key is named after the subdomain and bound to the first
/// record with the created name. There is none where no record has the name.
pub fn setup_record_with_key(records: &Vec<DnsRecord>, created_name: &str, subdomain: &str) -> (r: Result<
    AddApiKey,
    String,
>)
    ensures
        match r {
            Ok(request) => {
                &&& request.name@ == "drago-"@ + subdomain@
                &&& exists|i: int|
                    0 <= i < records@.len() && (#[trigger] records@[i]).name@ == created_name@ && request.scope@
                        == records@[i].id@ && forall|j: int|
                        0 <= j < i ==> (#[trigger] records@[j]).name@ != created_name@
            },
            Err(why) => why@ == "Could not find the record we just created"@ && forall|i: int|
                0 <= i < records@.len() ==> (#[trigger] records@[i]).name@ != created_name@,
        },
{
    let mut i: usize = 0;
    while i < records.len()
        invariant
            0 <= i <= records@.len(),
            forall|j: int| 0 <= j < i ==> (#[trigger] records@[j]).name@ != created_name@,
        decreases records@.len() - i,
    {
        if same_text(records[i].name.as_str(), created_name) {
            return Ok(
                AddApiKey { name: String::from_str("drago-").concat(subdomain), scope: records[i].id.clone() },
            );
        }
        i += 1;
    }
    Err(String::from_str("Could not find the record we just created"))
}

/// The zone that a typed number selects from a list that is numbered from
/// 1: the text has to be a number, apart from whitespace around it.
pub open spec fn selected(count: nat, input: Seq<char>) -> Option<int> {
    match unsigned_usize(trimmed(input)) {
        Some(number) => if 1 <= number <= count {
            Some(number - 1)
        } else {
            None
        },
        None => None,
    }
}

/// The zone that a typed number selects from the list shown.
pub fn prompt_for_zone_selection(zones: &Vec<(String, String)>, input: &str) -> (r: Option<(String, String)>)
    ensures
        match selected(zones@.len(), input@) {
            Some(i) => r == Some(zones@[i]),
            None => r is None,
        },
{
    match parse_unsigned(trim(input)) {
        Some(number) => {
            if number > 0 && number <= zones.len() {
                Some((zones[number - 1].0.clone(), zones[number - 1].1.clone()))
            } else {
                None
            }
        },
        None => None,
    }
}

/// The subdomain that was typed: the text without the whitespace around it,
/// unless nothing is left.
pub fn prompt_for_record_name(input: &str) -> (r: Option<String>)
    ensures
        match r {
            Some(name) => name@ == trimmed(input@) && name@.len() > 0,
            None => trimmed(input@).len() == 0,
        },
{
    let name = trim(input);
    if name.unicode_len() == 0 {
        None
    } else {
        Some(String::from_str(name))
    }
}

/// A provider token as it is sent: without whitespace and without quotes
/// around it.
pub open spec fn cleaned(token: Seq<char>) -> Seq<char> {
    stripped_of(stripped_of(trimmed(token), '"'), '\'')
}

/// Removes from a provider token the whitespace and the quotes that a
/// configuration file may have left around it.
pub fn clean_token(cf_token: &str) -> (r: &str)
    ensures
        r@ == cleaned(cf_token@),
{
    trim_char(trim_char(trim(cf_token), '"'), '\'')
}

/// Whether an answer to a yes-or-no question is a yes: whether it begins
/// with `y` or `Y`, whitespace aside.
pub open spec fn is_yes(input: Seq<char>) -> bool {
    let answer = trimmed(input);
    answer.len() > 0 && (answer[0] == 'y' || answer[0] == 'Y')
}

/// Whether the user, asked whether to add a provider token, said yes.
pub fn wants_new_token(input: &str) -> (r: bool)
    ensures
        r == is_yes(input@),
{
    let answer = trim(input);
    proof {
        reveal_strlit("y");
        reveal_strlit("Y");
    }
    let lower = strip_prefix(answer, "y");
    let upper = strip_prefix(answer, "Y");
    proof {
        let a = answer@;
        if lower is Some {
            assert(a[0] == ("y"@ + lower->Some_0@)[0]);
        } else if a.len() > 0 && a[0] == 'y' {
            assert("y"@ =~= a.subrange(0, 1));
        }
        if upper is Some {
            assert(a[0] == ("Y"@ + upper->Some_0@)[0]);
        } else if a.len() > 0 && a[0] == 'Y' {
            assert("Y"@ =~= a.subrange(0, 1));
        }
    }
    lower.is_some() || upper.is_some()
}

} // verus!
