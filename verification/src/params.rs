//! Build parameters and the command line that is assembled from them.

use vstd::prelude::*;

verus! {

/// The parameters of one build, as the caller supplies them.
#[derive(Debug, PartialEq, Eq)]
pub struct MkArchQemuParams {
    pub out_dir: String,
    pub work_dir: String,
    pub img_size: Option<String>,
    pub swap: Option<String>,
    pub profile_dir: String,
}

/// The mathematical value of a set of build parameters: each text as a
/// sequence of characters, each optional text present or absent.
pub struct ParamsView {
    pub out_dir: Seq<char>,
    pub work_dir: Seq<char>,
    pub img_size: Option<Seq<char>>,
    pub swap: Option<Seq<char>>,
    pub profile_dir: Seq<char>,
}

/// The value of an optional text.
pub open spec fn text_option(text: Option<String>) -> Option<Seq<char>> {
    match text {
        Some(s) => Some(s@),
        None => None,
    }
}

impl ParamsView {
    /// The flags for the image size: `-s <size>` when a size is given,
    /// nothing at all when it is not.
    pub open spec fn image_size_arguments(self) -> Seq<Seq<char>> {
        match self.img_size {
            Some(size) => seq!["-s"@, size],
            None => Seq::empty(),
        }
    }

    /// The flag for the swap size: the single argument `--swap=<size>` when a
    /// size is given, nothing at all when it is not.
    pub open spec fn swap_arguments(self) -> Seq<Seq<char>> {
        match self.swap {
            Some(size) => seq!["--swap="@ + size],
            None => Seq::empty(),
        }
    }

    /// The arguments handed to the builder:
    /// `-o <out_dir> -w <work_dir> [-s <img_size>] [--swap=<swap>] <profile_dir>`.
    pub open spec fn arguments(self) -> Seq<Seq<char>> {
        seq!["-o"@, self.out_dir, "-w"@, self.work_dir] + self.image_size_arguments()
            + self.swap_arguments() + seq![self.profile_dir]
    }
}

/// An option that is absent leaves no trace among the arguments, neither a
/// flag nor an empty placeholder: the image size takes two arguments or none,
/// the swap size one or none, and the profile directory always comes last.
pub proof fn lemma_arguments_shape(params: ParamsView)
    ensures
        params.image_size_arguments().len() == (if params.img_size is Some { 2nat } else { 0nat }),
        params.swap_arguments().len() == (if params.swap is Some { 1nat } else { 0nat }),
        params.arguments().len() == 5 + params.image_size_arguments().len()
            + params.swap_arguments().len(),
        params.arguments().last() == params.profile_dir,
        params.img_size is None && params.swap is None ==> params.arguments() == seq![
            "-o"@,
            params.out_dir,
            "-w"@,
            params.work_dir,
            params.profile_dir,
        ],
{
    if params.img_size is None && params.swap is None {
        assert(params.arguments() =~= seq![
            "-o"@,
            params.out_dir,
            "-w"@,
            params.work_dir,
            params.profile_dir,
        ]);
    }
}

impl View for MkArchQemuParams {
    type V = ParamsView;

    open spec fn view(&self) -> ParamsView {
        ParamsView {
            out_dir: self.out_dir@,
            work_dir: self.work_dir@,
            img_size: text_option(self.img_size),
            swap: text_option(self.swap),
            profile_dir: self.profile_dir@,
        }
    }
}

/// The values of a list of texts, in order.
pub open spec fn texts(list: Seq<String>) -> Seq<Seq<char>> {
    list.map_values(|s: String| s@)
}

/// A copy of an optional text.
pub(crate) fn copy_text_option(text: &Option<String>) -> (copy: Option<String>)
    ensures
        copy == *text,
{
    match text {
        Some(s) => Some(s.clone()),
        None => None,
    }
}

impl Clone for MkArchQemuParams {
    fn clone(&self) -> (copy: Self)
        ensures
            copy == *self,
    {
        MkArchQemuParams {
            out_dir: self.out_dir.clone(),
            work_dir: self.work_dir.clone(),
            img_size: copy_text_option(&self.img_size),
            swap: copy_text_option(&self.swap),
            profile_dir: self.profile_dir.clone(),
        }
    }
}

impl MkArchQemuParams {
    /// Assembles the builder's arguments. An optional value that is absent
    /// contributes no argument: no flag, and no empty placeholder.
    pub fn command_args(&self) -> (args: Vec<String>)
        ensures
            texts(args@) == self@.arguments(),
    {
        let mut args: Vec<String> = Vec::new();
        args.push("-o".to_owned());
        args.push(self.out_dir.clone());
        args.push("-w".to_owned());
        args.push(self.work_dir.clone());
        if let Some(size) = &self.img_size {
            args.push("-s".to_owned());
            args.push(size.clone());
        }
        if let Some(size) = &self.swap {
            let mut flag = "--swap=".to_owned();
            flag.append(size.as_str());
            args.push(flag);
        }
        args.push(self.profile_dir.clone());
        assert(texts(args@) =~= self@.arguments());
        args
    }
}

} // verus!
