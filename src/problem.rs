use vstd::prelude::*;

verus! {

/// One violation of a ratchet check, for reporting.
#[derive(Clone, Debug)]
pub enum NixpkgsProblem {
    /// A package in `pkgs/by-name` still has a manual definition that only
    /// calls it with empty arguments.
    WrongCallPackage { relative_package_file: String, package_name: String },
    /// A package that was defined in `pkgs/by-name` no longer is.
    MovedOutOfByName {
        package_name: String,
        call_package_path: Option<String>,
        empty_arg: bool,
    },
    /// A new package is not defined in `pkgs/by-name`.
    NewPackageNotUsingByName {
        package_name: String,
        call_package_path: Option<String>,
        empty_arg: bool,
    },
}

/// The mathematical value of a [`NixpkgsProblem`].
pub enum ProblemView {
    WrongCallPackage { relative_package_file: Seq<char>, package_name: Seq<char> },
    MovedOutOfByName {
        package_name: Seq<char>,
        call_package_path: Option<Seq<char>>,
        empty_arg: bool,
    },
    NewPackageNotUsingByName {
        package_name: Seq<char>,
        call_package_path: Option<Seq<char>>,
        empty_arg: bool,
    },
}

pub open spec fn option_view(o: Option<String>) -> Option<Seq<char>> {
    match o {
        Some(s) => Some(s@),
        None => None,
    }
}

impl View for NixpkgsProblem {
    type V = ProblemView;

    open spec fn view(&self) -> ProblemView {
        match self {
            NixpkgsProblem::WrongCallPackage { relative_package_file, package_name } =>
                ProblemView::WrongCallPackage {
                relative_package_file: relative_package_file@,
                package_name: package_name@,
            },
            NixpkgsProblem::MovedOutOfByName { package_name, call_package_path, empty_arg } =>
                ProblemView::MovedOutOfByName {
                package_name: package_name@,
                call_package_path: option_view(*call_package_path),
                empty_arg: *empty_arg,
            },
            NixpkgsProblem::NewPackageNotUsingByName {
                package_name,
                call_package_path,
                empty_arg,
            } => ProblemView::NewPackageNotUsingByName {
                package_name: package_name@,
                call_package_path: option_view(*call_package_path),
                empty_arg: *empty_arg,
            },
        }
    }
}

/// The verdict of a comparison: success, or every problem that was found.
#[derive(Clone, Debug)]
pub enum Validation {
    Success,
    Failure(Vec<NixpkgsProblem>),
}

impl Validation {
    /// The problems of the verdict, in the order they are reported.
    pub open spec fn problems(&self) -> Seq<ProblemView> {
        match self {
            Validation::Success => Seq::empty(),
            Validation::Failure(v) => v@.map_values(|p: NixpkgsProblem| p@),
        }
    }

    /// The verdict that reports `problems`, which is success exactly when it is empty.
    pub fn from_problems(problems: Vec<NixpkgsProblem>) -> (r: Validation)
        ensures
            r.problems() == problems@.map_values(|p: NixpkgsProblem| p@),
            r is Success <==> problems@.len() == 0,
    {
        if problems.len() == 0 {
            assert(problems@.map_values(|p: NixpkgsProblem| p@) =~= Seq::empty());
            Validation::Success
        } else {
            Validation::Failure(problems)
        }
    }

    /// Whether no problem was found.
    pub fn is_success(&self) -> (r: bool)
        ensures
            r == (self is Success),
    {
        match self {
            Validation::Success => true,
            Validation::Failure(_) => false,
        }
    }
}

/// A copy of an optional string.
pub fn clone_option(o: &Option<String>) -> (r: Option<String>)
    ensures
        option_view(r) == option_view(*o),
{
    match o {
        Some(s) => Some(s.clone()),
        None => None,
    }
}

} // verus!
