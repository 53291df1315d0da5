//! Command-line arguments of the player: file path, chip backend and
//! color filter settings, and the notices that parsing leaves for the user.

use vstd::prelude::*;
use crate::text::{starts_with, str_eq};
use vstd::string::StringSliceAdditionalSpecFns;
use vstd::utf8::encode_utf8;

verus! {

/// Available chip emulation backends.
#[derive(Clone, Copy, Debug, PartialEq, Eq, Structural)]
pub enum ChipChoice {
    /// YM2149 hardware emulation.
    Ym2149,
}

/// ASCII lower-casing of one byte.
pub open spec fn ascii_lower(b: u8) -> u8 {
    if 65 <= b <= 90 { (b + 32) as u8 } else { b }
}

/// The bytes of "ym2149".
pub open spec fn ym2149_bytes() -> Seq<u8> {
    seq![121u8, 109, 50, 49, 52, 57]
}

/// Whether `bytes`, lower-cased, spell "ym2149".
pub open spec fn names_ym2149(bytes: Seq<u8>) -> bool {
    bytes.len() == 6 && forall|i: int| 0 <= i < 6 ==> ascii_lower(bytes[i]) == ym2149_bytes()[i]
}

impl ChipChoice {
    /// Parses a chip name, ignoring ASCII case; only "ym2149" is known.
    pub fn from_str(value: &str) -> (r: Option<Self>)
        ensures
            r == (if names_ym2149(value.spec_bytes()) { Some(ChipChoice::Ym2149) } else { None::<ChipChoice> }),
    {
        let bytes = value.as_bytes();
        if bytes.len() != 6 {
            return None;
        }
        let target: [u8; 6] = [121, 109, 50, 49, 52, 57];
        assert(target@ =~= ym2149_bytes());
        let mut i: usize = 0;
        while i < 6
            invariant
                i <= 6,
                bytes@ == value.spec_bytes(),
                bytes@.len() == 6,
                target@ == ym2149_bytes(),
                forall|j: int| 0 <= j < i ==> ascii_lower(bytes@[j]) == ym2149_bytes()[j],
            decreases 6 - i,
        {
            let b = bytes[i];
            let lower = if 65 <= b && b <= 90 { b + 32 } else { b };
            if lower != target[i] {
                return None;
            }
            i = i + 1;
        }
        Some(ChipChoice::Ym2149)
    }

    /// The chip's name.
    pub fn as_str(&self) -> (r: &'static str)
        ensures
            r@ == "ym2149"@,
    {
        "ym2149"
    }
}


/// Parsed command-line arguments.
#[derive(Debug)]
pub struct CliArgs {
    /// Song file or directory to play.
    pub file_path: Option<String>,
    /// Color filter setting given on the command line (None = default).
    pub color_filter_override: Option<bool>,
    /// Selected chip backend.
    pub chip_choice: ChipChoice,
    /// Whether help was requested (or an argument was wrong).
    pub show_help: bool,
}

impl Default for CliArgs {
    fn default() -> (a: Self)
        ensures
            a.file_path is None,
            a.color_filter_override is None,
            a.chip_choice == ChipChoice::Ym2149,
            !a.show_help,
    {
        CliArgs { file_path: None, color_filter_override: None, chip_choice: ChipChoice::Ym2149, show_help: false }
    }
}

/// Something the user is told about while the arguments are parsed.
#[derive(Debug)]
pub enum ArgNotice {
    /// `--chip` named an unknown chip (the name given).
    UnknownChip(String),
    /// `--chip` was the last argument.
    MissingChipValue,
    /// `--chip=NAME` named an unknown chip (the whole argument).
    UnknownChipInFlag(String),
    /// An unknown flag (the flag).
    UnknownFlag(String),
}

/// A notice as values: its kind and the index of the argument it is about.
pub enum NoticeModel {
    UnknownChip(int),
    MissingChipValue,
    UnknownChipInFlag(int),
    UnknownFlag(int),
}

/// Parsed arguments as values; the file path is the index of the argument.
pub struct ArgsModel {
    pub file_path: Option<int>,
    pub color_filter_override: Option<bool>,
    pub chip_choice: ChipChoice,
    pub show_help: bool,
    pub notices: Seq<NoticeModel>,
}

/// The characters of `--chip=`.
pub open spec fn chip_prefix() -> Seq<char> {
    seq!['-', '-', 'c', 'h', 'i', 'p', '=']
}

/// The arguments from index `i` on, parsed into `st`: `--no-color-filter`
/// turns the filter off; `--help` and `-h` ask for help; `--chip NAME` and
/// `--chip=NAME` select a chip (an unknown name, or a missing one, asks for
/// help with a notice); another argument starting with `-` is an unknown
/// flag (help, with a notice); anything else is the file path (the last one
/// wins).
pub open spec fn parse_from(args: Seq<Seq<char>>, i: int, st: ArgsModel) -> ArgsModel
    decreases args.len() - i,
{
    if i < 0 || i >= args.len() {
        st
    } else {
        let a = args[i];
        if a == seq!['-', '-', 'n', 'o', '-', 'c', 'o', 'l', 'o', 'r', '-', 'f', 'i', 'l', 't', 'e', 'r'] {
            parse_from(args, i + 1, ArgsModel { color_filter_override: Some(false), ..st })
        } else if a == seq!['-', '-', 'h', 'e', 'l', 'p'] || a == seq!['-', 'h'] {
            parse_from(args, i + 1, ArgsModel { show_help: true, ..st })
        } else if a == seq!['-', '-', 'c', 'h', 'i', 'p'] {
            if i + 1 < args.len() {
                if names_ym2149(encode_utf8(args[i + 1])) {
                    parse_from(args, i + 2, ArgsModel { chip_choice: ChipChoice::Ym2149, ..st })
                } else {
                    parse_from(args, i + 2, ArgsModel {
                        show_help: true,
                        notices: st.notices.push(NoticeModel::UnknownChip(i + 1)),
                        ..st
                    })
                }
            } else {
                parse_from(args, i + 1, ArgsModel {
                    show_help: true,
                    notices: st.notices.push(NoticeModel::MissingChipValue),
                    ..st
                })
            }
        } else if a.len() >= 7 && a.subrange(0, 7) == chip_prefix() {
            if names_ym2149(encode_utf8(a.subrange(7, a.len() as int))) {
                parse_from(args, i + 1, ArgsModel { chip_choice: ChipChoice::Ym2149, ..st })
            } else {
                parse_from(args, i + 1, ArgsModel {
                    show_help: true,
                    notices: st.notices.push(NoticeModel::UnknownChipInFlag(i)),
                    ..st
                })
            }
        } else if a.len() >= 1 && a[0] == '-' {
            parse_from(args, i + 1, ArgsModel {
                show_help: true,
                notices: st.notices.push(NoticeModel::UnknownFlag(i)),
                ..st
            })
        } else {
            parse_from(args, i + 1, ArgsModel { file_path: Some(i), ..st })
        }
    }
}

/// The defaults that parsing starts from.
pub open spec fn default_args_model() -> ArgsModel {
    ArgsModel {
        file_path: None,
        color_filter_override: None,
        chip_choice: ChipChoice::Ym2149,
        show_help: false,
        notices: Seq::empty(),
    }
}

/// Whether a notice is the model one, for the given arguments.
pub open spec fn notice_is(n: ArgNotice, m: NoticeModel, args: Seq<Seq<char>>) -> bool {
    match (n, m) {
        (ArgNotice::UnknownChip(s), NoticeModel::UnknownChip(k)) => s@ == args[k],
        (ArgNotice::MissingChipValue, NoticeModel::MissingChipValue) => true,
        (ArgNotice::UnknownChipInFlag(s), NoticeModel::UnknownChipInFlag(k)) => s@ == args[k],
        (ArgNotice::UnknownFlag(s), NoticeModel::UnknownFlag(k)) => s@ == args[k],
        _ => false,
    }
}

/// Whether parsed arguments and notices are the model, for the given arguments.
pub open spec fn args_are(a: CliArgs, notices: Seq<ArgNotice>, m: ArgsModel, args: Seq<Seq<char>>) -> bool {
    &&& match (a.file_path, m.file_path) {
        (Some(s), Some(k)) => s@ == args[k],
        (None, None) => true,
        _ => false,
    }
    &&& a.color_filter_override == m.color_filter_override
    &&& a.chip_choice == m.chip_choice
    &&& a.show_help == m.show_help
    &&& notices.len() == m.notices.len()
    &&& forall|j: int| 0 <= j < notices.len() ==> #[trigger] notice_is(notices[j], m.notices[j], args)
}

impl CliArgs {
    /// Parses the command-line arguments (without the program name) and
    /// returns them with the notices to show, in order.
    pub fn parse_args(args: &Vec<String>) -> (r: (CliArgs, Vec<ArgNotice>))
        ensures
            args_are(r.0, r.1@, parse_from(args@.map_values(|s: String| s@), 0, default_args_model()), args@.map_values(|s: String| s@)),
    {
        let ghost views = args@.map_values(|s: String| s@);
        let mut out = CliArgs::default();
        let mut notices: Vec<ArgNotice> = Vec::new();
        let ghost mut st = default_args_model();
        let mut i: usize = 0;
        while i < args.len()
            invariant
                i <= args@.len(),
                views == args@.map_values(|s: String| s@),
                args_are(out, notices@, st, views),
                parse_from(views, 0, default_args_model()) == parse_from(views, i as int, st),
            decreases args@.len() - i,
        {
            proof {
                reveal_strlit("--no-color-filter");
                reveal_strlit("--help");
                reveal_strlit("-h");
                reveal_strlit("--chip");
                reveal_strlit("--chip=");
                assert("--no-color-filter"@ =~= seq!['-', '-', 'n', 'o', '-', 'c', 'o', 'l', 'o', 'r', '-', 'f', 'i', 'l', 't', 'e', 'r']);
                assert("--help"@ =~= seq!['-', '-', 'h', 'e', 'l', 'p']);
                assert("-h"@ =~= seq!['-', 'h']);
                assert("--chip"@ =~= seq!['-', '-', 'c', 'h', 'i', 'p']);
                assert("--chip="@ =~= chip_prefix());
            }
            let arg: &str = args[i].as_str();
            assert(arg@ == views[i as int]);
            if str_eq(arg, "--no-color-filter") {
                out.color_filter_override = Some(false);
                proof {
                    st = ArgsModel { color_filter_override: Some(false), ..st };
                }
                i = i + 1;
            } else if str_eq(arg, "--help") || str_eq(arg, "-h") {
                out.show_help = true;
                proof {
                    st = ArgsModel { show_help: true, ..st };
                }
                i = i + 1;
            } else if str_eq(arg, "--chip") {
                if i + 1 < args.len() {
                    let value: &str = args[i + 1].as_str();
                    assert(value@ == views[i + 1]);
                    match ChipChoice::from_str(value) {
                        Some(choice) => {
                            out.chip_choice = choice;
                            proof {
                                st = ArgsModel { chip_choice: ChipChoice::Ym2149, ..st };
                            }
                        },
                        None => {
                            out.show_help = true;
                            notices.push(ArgNotice::UnknownChip(args[i + 1].clone()));
                            proof {
                                st = ArgsModel {
                                    show_help: true,
                                    notices: st.notices.push(NoticeModel::UnknownChip(i + 1)),
                                    ..st
                                };
                            }
                        },
                    }
                    i = i + 2;
                } else {
                    out.show_help = true;
                    notices.push(ArgNotice::MissingChipValue);
                    proof {
                        st = ArgsModel {
                            show_help: true,
                            notices: st.notices.push(NoticeModel::MissingChipValue),
                            ..st
                        };
                    }
                    i = i + 1;
                }
            } else if starts_with(arg, "--chip=") {
                let n = arg.unicode_len();
                let value = arg.substring_char(7, n);
                match ChipChoice::from_str(value) {
                    Some(choice) => {
                        out.chip_choice = choice;
                        proof {
                            st = ArgsModel { chip_choice: ChipChoice::Ym2149, ..st };
                        }
                    },
                    None => {
                        out.show_help = true;
                        notices.push(ArgNotice::UnknownChipInFlag(args[i].clone()));
                        proof {
                            st = ArgsModel {
                                show_help: true,
                                notices: st.notices.push(NoticeModel::UnknownChipInFlag(i as int)),
                                ..st
                            };
                        }
                    },
                }
                i = i + 1;
            } else if arg.unicode_len() >= 1 && arg.get_char(0) == '-' {
                out.show_help = true;
                notices.push(ArgNotice::UnknownFlag(args[i].clone()));
                proof {
                    st = ArgsModel {
                        show_help: true,
                        notices: st.notices.push(NoticeModel::UnknownFlag(i as int)),
                        ..st
                    };
                }
                i = i + 1;
            } else {
                out.file_path = Some(args[i].clone());
                proof {
                    st = ArgsModel { file_path: Some(i as int), ..st };
                }
                i = i + 1;
            }
        }
        (out, notices)
    }
}

} // verus!
