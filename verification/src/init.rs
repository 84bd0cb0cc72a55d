//! The first set-up: the directories, the configuration and the collection
//! that a new user starts with.

use crate::config::{Config, DataStyle, Style, TableStyle};
use crate::error::TipsError;
use crate::metadata::{Metadata, MetadataView};
use crate::remove::{confirms, is_confirmed};
use crate::tip::{ContentRef, Tip, TipView};
use crate::tips::{well_formed, Tips};
use vstd::prelude::*;

verus! {

/// The text of the tip that welcomes a new user.
pub const INTRODUCTION: &'static str = r##"
Welcome to T(ips)

    Colored output
    --------------

    Below applies for Tip summary output, that means when listing Tips and also
    the header when showing the data contents of a tip.

	Prettytable supports setting a style on a Cell. Tips configuration ~/.tipsrc
    contain an empty style. By changing that string you can get the style you
    prefer.

    Search for "Style spec syntax" for a description on how to set it.
    https://docs.rs/prettytable-rs/0.8.0/prettytable/struct.Cell.html#method.with_style
"##;

/// The path of the configuration file of the user whose home directory
/// is `home`.
pub fn tipsrc_path(home: &str) -> (path: String)
    ensures
        path@ == home@ + "/.tipsrc"@,
{
    let mut path = home.to_owned();
    path.append("/.tipsrc");
    path
}

/// The directories that the tips need, in the order in which they are to
/// be made: the directory of the tips, and in it the directory of the
/// texts.
pub fn create_directory(home: &str) -> (directories: Vec<String>)
    ensures
        directories.deep_view() == seq![home@ + "/.tips"@, home@ + "/.tips"@ + "/data"@],
{
    let mut tips = home.to_owned();
    tips.append("/.tips");
    let mut data = tips.clone();
    data.append("/data");
    let mut directories: Vec<String> = Vec::new();
    directories.push(tips);
    directories.push(data);
    assert(directories.deep_view() =~= seq![home@ + "/.tips"@, home@ + "/.tips"@ + "/data"@]);
    directories
}

/// The configuration that a new user starts with: all files under
/// `.tips` in the home directory, `vim` as the editor, no style for the
/// listing, and a dark theme for the texts.
pub fn create_tipsrc(home: &str) -> (config: Config)
    ensures
        config.db_file@ == home@ + "/.tips"@ + "/db.yaml"@,
        config.tmp_file@ == home@ + "/.tips"@ + "/tmp_file.yaml"@,
        config.data@ == home@ + "/.tips"@ + "/data"@,
        config.editor@ == "/usr/bin/vim"@,
        config.style.table.id@ == ""@,
        config.style.table.subject@ == ""@,
        config.style.table.tags@ == ""@,
        config.style.data.theme@ == "Solarized (dark)"@,
{
    let mut tips = home.to_owned();
    tips.append("/.tips");
    let mut db_file = tips.clone();
    db_file.append("/db.yaml");
    let mut tmp_file = tips.clone();
    tmp_file.append("/tmp_file.yaml");
    let mut data = tips;
    data.append("/data");
    Config {
        db_file,
        tmp_file,
        data,
        editor: "/usr/bin/vim".to_owned(),
        style: Style {
            table: TableStyle { id: "".to_owned(), subject: "".to_owned(), tags: "".to_owned() },
            data: DataStyle { theme: "Solarized (dark)".to_owned() },
        },
    }
}

/// The tip that welcomes a new user, with its text under the name `data`.
pub open spec fn welcome_tip(data: ContentRef) -> TipView {
    TipView {
        metadata: MetadataView {
            subject: "My first tip"@,
            id: Some(1usize),
            tags: seq!["tip"@],
            created: None,
            last_updated: None,
            data_extension: Some("txt"@),
        },
        data,
    }
}

/// The collection that a new user starts with: the welcome tip alone,
/// under the id 1.
pub fn create_database(data: ContentRef) -> (tips: Tips)
    ensures
        tips@ == seq![welcome_tip(data)],
        well_formed(tips@),
{
    let mut tags: Vec<String> = Vec::new();
    tags.push("tip".to_owned());
    let metadata = Metadata {
        subject: "My first tip".to_owned(),
        id: Some(1),
        tags,
        created: None,
        last_updated: None,
        data_extension: Some("txt".to_owned()),
    };
    assert(metadata@.tags =~= seq!["tip"@]);
    let mut tips = Tips::new();
    tips.add(Tip { metadata, data });
    assert(tips@ =~= seq![welcome_tip(data)]);
    tips
}

/// All that the first set-up makes.
pub struct Setup {
    /// The path of the configuration file.
    pub tipsrc: String,
    /// The directories, in the order in which they are to be made.
    pub directories: Vec<String>,
    /// The configuration.
    pub config: Config,
    /// The collection.
    pub tips: Tips,
}

/// What the first set-up comes to, for the home directory `home`, the
/// user's answer to the question whether to go ahead, and the name `data`
/// for the text of the welcome tip.
pub open spec fn setup_made(r: Result<Setup, TipsError>, home: Seq<char>, answer: Seq<char>, data: ContentRef) -> bool {
    match r {
        Ok(setup) => {
            &&& confirms(answer)
            &&& setup.tipsrc@ == home + "/.tipsrc"@
            &&& setup.directories.deep_view() == seq![home + "/.tips"@, home + "/.tips"@ + "/data"@]
            &&& setup.config.db_file@ == home + "/.tips"@ + "/db.yaml"@
            &&& setup.config.tmp_file@ == home + "/.tips"@ + "/tmp_file.yaml"@
            &&& setup.config.data@ == home + "/.tips"@ + "/data"@
            &&& setup.config.editor@ == "/usr/bin/vim"@
            &&& setup.config.style.table.id@ == ""@
            &&& setup.config.style.table.subject@ == ""@
            &&& setup.config.style.table.tags@ == ""@
            &&& setup.config.style.data.theme@ == "Solarized (dark)"@
            &&& setup.tips@ == seq![welcome_tip(data)]
        },
        Err(e) => e == TipsError::Declined && !confirms(answer),
    }
}

/// Plans the first set-up for the user whose home directory is `home`,
/// provided that the user's answer to the question whether to go ahead
/// says yes. The text of the welcome tip goes under the name `data`.
pub fn create_with(home: &str, answer: &str, data: ContentRef) -> (r: Result<Setup, TipsError>)
    ensures
        setup_made(r, home@, answer@, data),
{
    if !is_confirmed(answer) {
        return Err(TipsError::Declined);
    }
    Ok(
        Setup {
            tipsrc: tipsrc_path(home),
            directories: create_directory(home),
            config: create_tipsrc(home),
            tips: create_database(data),
        },
    )
}

/// Plans the first set-up for the user whose home directory is `home`,
/// provided that the user's answer to the question whether to go ahead
/// says yes. The text of the welcome tip gets a new name.
pub fn create(home: &str, answer: &str) -> (r: Result<Setup, TipsError>)
    ensures
        exists|data: ContentRef| #[trigger] setup_made(r, home@, answer@, data),
{
    let data = ContentRef::fresh();
    create_with(home, answer, data)
}

/// Decides what the set-up has to do: nothing where the configuration
/// file exists already, else the first set-up, for which `answer` is the
/// user's answer to the question whether to go ahead.
pub fn init(home: &str, tipsrc_exists: bool, answer: &str) -> (r: Result<Option<Setup>, TipsError>)
    ensures
        tipsrc_exists ==> r == Ok::<Option<Setup>, TipsError>(None),
        !tipsrc_exists ==> match r {
            Ok(Some(setup)) => exists|data: ContentRef| #[trigger]
                setup_made(Ok(setup), home@, answer@, data),
            Ok(None) => false,
            Err(e) => e == TipsError::Declined && !confirms(answer@),
        },
{
    if tipsrc_exists {
        Ok(None)
    } else {
        let made = create(home, answer);
        let ghost data = choose|data: ContentRef| setup_made(made, home@, answer@, data);
        match made {
            Ok(setup) => {
                let r = Ok(Some(setup));
                assert(r matches Ok(Some(s)) && setup_made(Ok(s), home@, answer@, data));
                r
            },
            Err(e) => {
                assert(setup_made(Err(e), home@, answer@, data));
                assert(e == TipsError::Declined && !confirms(answer@));
                Err(e)
            },
        }
    }
}

} // verus!
