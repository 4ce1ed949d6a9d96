//! Argument construction for the external dev-server process (`trunk serve`)
//! that the dev command runs beside the tool's watch process.

use vstd::prelude::*;
use vstd::string::StringExecFns;

use crate::strutil::dec_digits_spec;
use crate::strutil::str_eq;
use crate::strutil::u16_to_string;

verus! {

/// Options forwarded to `trunk serve`, each mapping to one flag of the
/// spawned command line.
#[derive(Clone, Debug, Default)]
pub struct TrunkServeOptions {
    pub config: Option<String>,
    pub address: Vec<String>,
    pub port: Option<u16>,
    pub open_browser: bool,
    pub no_autoreload: bool,
    pub no_spa: bool,
    pub watch: Vec<String>,
    pub ignore: Vec<String>,
    pub dist: Option<String>,
    pub release: bool,
    pub public_url: Option<String>,
}

/// A flag with its value, or nothing when the option is absent.
pub open spec fn opt_pair_spec(flag: Seq<char>, value: Option<Seq<char>>) -> Seq<Seq<char>> {
    match value {
        Option::None => Seq::empty(),
        Option::Some(v) => seq![flag, v],
    }
}

/// A bare flag exactly when the switch is on.
pub open spec fn flag_if_spec(on: bool, flag: Seq<char>) -> Seq<Seq<char>> {
    if on {
        seq![flag]
    } else {
        Seq::empty()
    }
}

/// The flag repeated before each value, in order.
pub open spec fn repeated_pairs_spec(flag: Seq<char>, values: Seq<Seq<char>>) -> Seq<Seq<char>>
    decreases values.len(),
{
    if values.len() == 0 {
        Seq::empty()
    } else {
        seq![flag, values[0]] + repeated_pairs_spec(flag, values.drop_first())
    }
}

/// Append `flag value` when the option is present.
fn push_opt_pair(args: &mut Vec<String>, flag: &str, value: &Option<String>)
    ensures
        final(args).deep_view() == old(args).deep_view() + opt_pair_spec(
            flag@,
            value.deep_view(),
        ),
{
    match value {
        Option::None => {
            proof {
                assert(args.deep_view() =~= old(args).deep_view() + opt_pair_spec(
                    flag@,
                    value.deep_view(),
                ));
            }
        },
        Option::Some(v) => {
            args.push(String::from_str(flag));
            args.push(v.clone());
            proof {
                assert(args.deep_view() =~= old(args).deep_view() + opt_pair_spec(
                    flag@,
                    value.deep_view(),
                ));
            }
        },
    }
}

/// Append the bare flag when the switch is on.
fn push_flag_if(args: &mut Vec<String>, on: bool, flag: &str)
    ensures
        final(args).deep_view() == old(args).deep_view() + flag_if_spec(on, flag@),
{
    if on {
        args.push(String::from_str(flag));
    }
    proof {
        assert(args.deep_view() =~= old(args).deep_view() + flag_if_spec(on, flag@));
    }
}

/// Append `flag value` once per value, in order.
fn push_repeated_pairs(args: &mut Vec<String>, flag: &str, values: &Vec<String>)
    ensures
        final(args).deep_view() == old(args).deep_view() + repeated_pairs_spec(
            flag@,
            values.deep_view(),
        ),
{
    let mut i: usize = 0;
    proof {
        assert(values.deep_view().skip(0) =~= values.deep_view());
    }
    while i < values.len()
        invariant
            0 <= i <= values.len(),
            args.deep_view() + repeated_pairs_spec(flag@, values.deep_view().skip(i as int))
                == old(args).deep_view() + repeated_pairs_spec(flag@, values.deep_view()),
        decreases values.len() - i,
    {
        let ghost before = args.deep_view();
        let ghost rest = values.deep_view().skip(i as int);
        args.push(String::from_str(flag));
        args.push(values[i].clone());
        proof {
            assert(rest.len() > 0);
            assert(rest[0] == values.deep_view()[i as int]);
            assert(rest.drop_first() =~= values.deep_view().skip(i as int + 1));
            assert(args.deep_view() =~= before + seq![flag@, values.deep_view()[i as int]]);
            assert(args.deep_view() + repeated_pairs_spec(
                flag@,
                values.deep_view().skip(i as int + 1),
            ) =~= before + repeated_pairs_spec(flag@, rest));
        }
        i += 1;
    }
    proof {
        assert(values.deep_view().skip(values.deep_view().len() as int) =~= Seq::<
            Seq<char>,
        >::empty());
        assert(args.deep_view() =~= old(args).deep_view() + repeated_pairs_spec(
            flag@,
            values.deep_view(),
        ));
    }
}

/// The full command line handed to the dev server: `serve` followed by one
/// flag per present option, in this fixed order.
pub open spec fn trunk_serve_args_spec(o: TrunkServeOptions) -> Seq<Seq<char>> {
    seq!["serve"@] + opt_pair_spec("--config"@, o.config.deep_view()) + repeated_pairs_spec(
        "--address"@,
        o.address.deep_view(),
    ) + opt_pair_spec(
        "--port"@,
        match o.port {
            Option::None => Option::None,
            Option::Some(p) => Option::Some(dec_digits_spec(p as nat)),
        },
    ) + flag_if_spec(o.open_browser, "--open"@) + flag_if_spec(o.no_autoreload, "--no-autoreload"@)
        + flag_if_spec(o.no_spa, "--no-spa"@) + repeated_pairs_spec(
        "--watch"@,
        o.watch.deep_view(),
    ) + repeated_pairs_spec("--ignore"@, o.ignore.deep_view()) + opt_pair_spec(
        "--dist"@,
        o.dist.deep_view(),
    ) + flag_if_spec(o.release, "--release"@) + opt_pair_spec(
        "--public-url"@,
        o.public_url.deep_view(),
    )
}

/// Build the dev server's argument list from the forwarded options.
pub fn trunk_serve_args(options: &TrunkServeOptions) -> (r: Vec<String>)
    ensures
        r.deep_view() == trunk_serve_args_spec(*options),
{
    let mut args: Vec<String> = Vec::new();
    args.push(String::from_str("serve"));
    push_opt_pair(&mut args, "--config", &options.config);
    push_repeated_pairs(&mut args, "--address", &options.address);
    let port_text = match &options.port {
        Option::None => Option::None,
        Option::Some(p) => Option::Some(u16_to_string(*p)),
    };
    push_opt_pair(&mut args, "--port", &port_text);
    push_flag_if(&mut args, options.open_browser, "--open");
    push_flag_if(&mut args, options.no_autoreload, "--no-autoreload");
    push_flag_if(&mut args, options.no_spa, "--no-spa");
    push_repeated_pairs(&mut args, "--watch", &options.watch);
    push_repeated_pairs(&mut args, "--ignore", &options.ignore);
    push_opt_pair(&mut args, "--dist", &options.dist);
    push_flag_if(&mut args, options.release, "--release");
    push_opt_pair(&mut args, "--public-url", &options.public_url);
    proof {
        assert(args.deep_view() =~= trunk_serve_args_spec(*options));
    }
    args
}

/// How a `NO_COLOR` environment value is forwarded to the dev server: `1`
/// becomes `true`, `0` becomes `false`, and anything else (or its absence)
/// is not forwarded at all.
pub open spec fn no_color_value_spec(value: Option<Seq<char>>) -> Option<Seq<char>> {
    match value {
        Option::None => Option::None,
        Option::Some(v) => if v == "1"@ {
            Option::Some("true"@)
        } else if v == "0"@ {
            Option::Some("false"@)
        } else {
            Option::None
        },
    }
}

/// The `NO_COLOR` value to set on the dev server, if any.
pub fn no_color_value(value: Option<&String>) -> (r: Option<String>)
    ensures
        r.deep_view() == no_color_value_spec(value.deep_view()),
{
    match value {
        Option::None => Option::None,
        Option::Some(v) => {
            if str_eq(v.as_str(), "1") {
                Option::Some(String::from_str("true"))
            } else if str_eq(v.as_str(), "0") {
                Option::Some(String::from_str("false"))
            } else {
                Option::None
            }
        },
    }
}

} // verus!
