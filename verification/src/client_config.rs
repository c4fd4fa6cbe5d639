//! Settings of the message-bus clients, held in `rdkafka`'s `ClientConfig`.

use vstd::prelude::*;
use rdkafka::config::ClientConfig;
use crate::config::KafkaConfig;

verus! {

#[verifier::external_type_specification]
#[verifier::external_body]
pub struct ExClientConfig(ClientConfig);

/// The parameters that a client configuration holds, by name.
pub uninterp spec fn client_config_entries(settings: ClientConfig) -> Map<Seq<char>, Seq<char>>;

/// A configuration without parameters.
pub open spec fn no_entries() -> Map<Seq<char>, Seq<char>> {
    Map::empty()
}

/// Calls `ClientConfig::new`, which makes a configuration with an empty
/// parameter map.
#[verifier::external_body]
pub(crate) fn client_config_new() -> (made: ClientConfig)
    ensures
        client_config_entries(made) == no_entries(),
{
    ClientConfig::new()
}

/// Calls `ClientConfig::set`, which inserts the parameter into the map and
/// replaces an earlier value of the same name.
#[verifier::external_body]
pub(crate) fn client_config_set(settings: &mut ClientConfig, key: &str, value: &str)
    ensures
        client_config_entries(*final(settings)) == client_config_entries(*old(settings)).insert(
            key@,
            value@,
        ),
{
    settings.set(key, value);
}

/// The parts in order, with `separator` between neighbours.
pub open spec fn joined(parts: Seq<Seq<char>>, separator: Seq<char>) -> Seq<char>
    decreases parts.len(),
{
    if parts.len() == 0 {
        Seq::<char>::empty()
    } else if parts.len() == 1 {
        parts[0]
    } else {
        joined(parts.drop_last(), separator) + separator + parts.last()
    }
}

/// Joins the parts with `separator` between neighbours.
pub fn join(parts: &Vec<String>, separator: &str) -> (text: String)
    ensures
        text@ == joined(parts.deep_view(), separator@),
{
    let ghost all = parts.deep_view();
    let mut text = String::new();
    let mut i: usize = 0;
    while i < parts.len()
        invariant
            all == parts.deep_view(),
            i <= parts.len(),
            text@ == joined(all.take(i as int), separator@),
        decreases parts.len() - i,
    {
        let ghost before = all.take(i as int);
        let ghost after = all.take(i + 1);
        if i > 0 {
            text.append(separator);
        }
        text.append(parts[i].as_str());
        proof {
            assert(after.drop_last() =~= before);
            assert(after.last() == all[i as int]);
            assert(all[i as int] == parts[i as int]@);
            if i == 0 {
                assert(after[0] == all[0]);
                assert(text@ =~= all[0]);
            } else {
                assert(text@ =~= joined(before, separator@) + separator@ + all[i as int]);
            }
        }
        i += 1;
    }
    proof {
        assert(all.take(i as int) =~= all);
    }
    text
}

/// The parameters `entries` with those that turn on transport security
/// where the bus configuration asks for it: the protocol, and the location
/// of the certificate authority where one is configured.
pub open spec fn secured(
    entries: Map<Seq<char>, Seq<char>>,
    enable_ssl: bool,
    ssl_ca_location: Option<Seq<char>>,
) -> Map<Seq<char>, Seq<char>> {
    if !enable_ssl {
        entries
    } else {
        let with_protocol = entries.insert("security.protocol"@, "ssl"@);
        match ssl_ca_location {
            Some(location) => with_protocol.insert("ssl.ca.location"@, location),
            None => with_protocol,
        }
    }
}

/// Adds the transport-security parameters that `kafka` asks for.
pub fn apply_security(settings: &mut ClientConfig, kafka: &KafkaConfig)
    ensures
        client_config_entries(*final(settings)) == secured(
            client_config_entries(*old(settings)),
            kafka.enable_ssl,
            kafka.ssl_ca_location.deep_view(),
        ),
{
    if kafka.enable_ssl {
        client_config_set(settings, "security.protocol", "ssl");
        match &kafka.ssl_ca_location {
            Some(location) => {
                client_config_set(settings, "ssl.ca.location", location.as_str());
            },
            None => {},
        }
    }
}

} // verus!
