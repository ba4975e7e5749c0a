//! Where clipboard images are saved.
use vstd::prelude::*;

verus! {

/// The folder created for clipboard images beside the project or in the
/// user's pictures.
pub const IMAGE_FOLDER_NAME: &'static str = "clipboard.aux2";

/// The pictures folder under the home directory, where the system names none.
pub const PICTURES_FOLDER_NAME: &'static str = "Pictures";

/// The project key under which a chosen save folder is stored.
pub const SAVE_FOLDER_KEY: &'static str = "save_image_to";

/// The folder clipboard images are saved to, by where it came from.
#[derive(Clone, Debug, PartialEq, Eq)]
pub enum SaveLocation {
    /// The folder stored in the project; used as it is.
    Configured(String),
    /// The image folder in the directory that holds the project file.
    BesideProject(String),
    /// The image folder in the user's pictures directory.
    InPictures(String),
    /// The image folder in `Pictures` under the user's home directory.
    InHome(String),
}

/// The first that applies of: a non-empty configured folder, the project's
/// directory, the pictures directory, the home directory.
pub open spec fn chosen_location(
    configured: Option<String>,
    project_dir: Option<String>,
    pictures: Option<String>,
    home: Option<String>,
) -> Option<SaveLocation> {
    if configured is Some && configured.unwrap()@.len() > 0 {
        Some(SaveLocation::Configured(configured.unwrap()))
    } else if project_dir is Some {
        Some(SaveLocation::BesideProject(project_dir.unwrap()))
    } else if pictures is Some {
        Some(SaveLocation::InPictures(pictures.unwrap()))
    } else if home is Some {
        Some(SaveLocation::InHome(home.unwrap()))
    } else {
        None
    }
}

/// The folders below the base folder, outermost first.
pub open spec fn subfolders_of(loc: SaveLocation) -> Seq<Seq<char>> {
    match loc {
        SaveLocation::Configured(_) => Seq::empty(),
        SaveLocation::BesideProject(_) => seq![IMAGE_FOLDER_NAME@],
        SaveLocation::InPictures(_) => seq![IMAGE_FOLDER_NAME@],
        SaveLocation::InHome(_) => seq![PICTURES_FOLDER_NAME@, IMAGE_FOLDER_NAME@],
    }
}

impl SaveLocation {
    /// The folder the location starts from.
    pub fn base(&self) -> (r: &String)
        ensures
            *self == SaveLocation::Configured(*r) || *self == SaveLocation::BesideProject(*r)
                || *self == SaveLocation::InPictures(*r) || *self == SaveLocation::InHome(*r),
    {
        match self {
            SaveLocation::Configured(p) => p,
            SaveLocation::BesideProject(p) => p,
            SaveLocation::InPictures(p) => p,
            SaveLocation::InHome(p) => p,
        }
    }

    /// The folders to descend into from [`SaveLocation::base`], outermost
    /// first.
    pub fn subfolders(&self) -> (r: Vec<String>)
        ensures
            r@.map_values(|s: String| s@) == subfolders_of(*self),
    {
        let mut v: Vec<String> = Vec::new();
        match self {
            SaveLocation::Configured(_) => {},
            SaveLocation::BesideProject(_) | SaveLocation::InPictures(_) => {
                v.push(String::from_str(IMAGE_FOLDER_NAME));
            },
            SaveLocation::InHome(_) => {
                v.push(String::from_str(PICTURES_FOLDER_NAME));
                v.push(String::from_str(IMAGE_FOLDER_NAME));
            },
        }
        assert(v@.map_values(|s: String| s@) =~= subfolders_of(*self));
        v
    }
}

/// Chooses the save folder from what is known of the project and the user.
/// A configured folder wins when it is not empty, then the project's
/// directory, then the pictures directory, then the home directory.
pub fn choose_save_location(
    configured: Option<String>,
    project_dir: Option<String>,
    pictures: Option<String>,
    home: Option<String>,
) -> (r: Option<SaveLocation>)
    ensures
        r == chosen_location(configured, project_dir, pictures, home),
{
    if let Some(c) = configured {
        if c.as_str().is_empty() == false {
            return Some(SaveLocation::Configured(c));
        }
    }
    if let Some(p) = project_dir {
        Some(SaveLocation::BesideProject(p))
    } else if let Some(p) = pictures {
        Some(SaveLocation::InPictures(p))
    } else if let Some(h) = home {
        Some(SaveLocation::InHome(h))
    } else {
        None
    }
}

/// Relies on dirs::picture_dir: the user's pictures directory, where the
/// system names one; the path is taken as text, lossily.
#[verifier::external_body]
fn user_pictures_dir() -> (r: Option<String>) {
    dirs::picture_dir().map(|p| p.to_string_lossy().into_owned())
}

/// Relies on dirs::home_dir: the user's home directory, where one is known;
/// the path is taken as text, lossily.
#[verifier::external_body]
fn user_home_dir() -> (r: Option<String>) {
    dirs::home_dir().map(|p| p.to_string_lossy().into_owned())
}

/// [`choose_save_location`] with the user's directories asked of the system,
/// each only where the choice comes to it. `None` only where the system
/// names neither directory.
pub fn resolve_save_location(configured: Option<String>, project_dir: Option<String>) -> (r:
    Option<SaveLocation>)
    ensures
        configured is Some && configured.unwrap()@.len() > 0 ==> r == Some(
            SaveLocation::Configured(configured.unwrap()),
        ),
        !(configured is Some && configured.unwrap()@.len() > 0) && project_dir is Some ==> r
            == Some(SaveLocation::BesideProject(project_dir.unwrap())),
        !(configured is Some && configured.unwrap()@.len() > 0) && project_dir is None ==> (
        r is None || r matches Some(SaveLocation::InPictures(_)) || r matches Some(
            SaveLocation::InHome(_),
        )),
{
    let explicit = match &configured {
        Some(c) => c.as_str().is_empty() == false,
        None => false,
    };
    if explicit || project_dir.is_some() {
        return choose_save_location(configured, project_dir, None, None);
    }
    let pictures = user_pictures_dir();
    if pictures.is_some() {
        return choose_save_location(configured, project_dir, pictures, None);
    }
    let home = user_home_dir();
    choose_save_location(configured, project_dir, None, home)
}

} // verus!
