//! The shapes of the rows that the three queries select.

use crate::utils::utils::{cell_of, flag_cell, flag_in, number_cell, number_in, text_cell, Record};
use vstd::prelude::*;
use vstd::string::*;

verus! {

/// A span of source lines: the columns `filename`, `startline`, `endline`.
#[derive(Debug)]
pub struct SourceInfoParse {
    pub filename: String,
    pub startline: u32,
    pub endline: u32,
}

/// The mathematical content of a [`SourceInfoParse`].
pub struct SourceInfoModel {
    pub filename: Seq<char>,
    pub startline: u32,
    pub endline: u32,
}

impl DeepView for SourceInfoParse {
    type V = SourceInfoModel;

    open spec fn deep_view(&self) -> SourceInfoModel {
        SourceInfoModel {
            filename: self.filename@,
            startline: self.startline,
            endline: self.endline,
        }
    }
}

impl SourceInfoModel {
    /// The span that three cells make, where all three could be read.
    pub open spec fn from_cells(
        filename: Option<Seq<char>>,
        startline: Option<u32>,
        endline: Option<u32>,
    ) -> Option<SourceInfoModel> {
        match (filename, startline, endline) {
            (Some(filename), Some(startline), Some(endline)) => Some(
                SourceInfoModel { filename, startline, endline },
            ),
            _ => None,
        }
    }
}

impl SourceInfoParse {
    /// Makes a span from the three cells as they were read: the text of
    /// the first, the numbers in the other two. A cell that is missing or
    /// holds no number leaves no span.
    pub fn from_cells(filename: Option<&str>, startline: Option<u32>, endline: Option<u32>) -> (r:
        Option<SourceInfoParse>)
        ensures
            r.deep_view() == SourceInfoModel::from_cells(
                filename.deep_view(),
                startline,
                endline,
            ),
    {
        match (filename, startline, endline) {
            (Some(filename), Some(startline), Some(endline)) => Some(
                SourceInfoParse { filename: String::from_str(filename), startline, endline },
            ),
            _ => None,
        }
    }
}

impl Record for SourceInfoParse {
    open spec fn row_model(header: Seq<Seq<char>>, row: Seq<Seq<char>>) -> Option<SourceInfoModel> {
        SourceInfoModel::from_cells(
            cell_of(header, row, "filename"@),
            number_in(cell_of(header, row, "startline"@)),
            number_in(cell_of(header, row, "endline"@)),
        )
    }

    fn from_row(header: &Vec<String>, row: &Vec<String>) -> (r: Option<Self>) {
        SourceInfoParse::from_cells(
            text_cell(header, row, "filename"),
            number_cell(header, row, "startline"),
            number_cell(header, row, "endline"),
        )
    }
}

/// A function with its span and whether it is dispatched virtually: the
/// columns `name`, `filename`, `startline`, `endline`, `is_virtual`.
#[derive(Debug)]
pub struct FunctionInfoParse {
    pub name: String,
    pub filename: String,
    pub startline: u32,
    pub endline: u32,
    pub is_virtual: bool,
}

/// The mathematical content of a [`FunctionInfoParse`].
pub struct FunctionInfoModel {
    pub name: Seq<char>,
    pub filename: Seq<char>,
    pub startline: u32,
    pub endline: u32,
    pub is_virtual: bool,
}

impl DeepView for FunctionInfoParse {
    type V = FunctionInfoModel;

    open spec fn deep_view(&self) -> FunctionInfoModel {
        FunctionInfoModel {
            name: self.name@,
            filename: self.filename@,
            startline: self.startline,
            endline: self.endline,
            is_virtual: self.is_virtual,
        }
    }
}

impl FunctionInfoModel {
    /// The function that five cells make, where all five could be read.
    pub open spec fn from_cells(
        name: Option<Seq<char>>,
        filename: Option<Seq<char>>,
        startline: Option<u32>,
        endline: Option<u32>,
        is_virtual: Option<bool>,
    ) -> Option<FunctionInfoModel> {
        match (name, filename, startline, endline, is_virtual) {
            (Some(name), Some(filename), Some(startline), Some(endline), Some(is_virtual)) => Some(
                FunctionInfoModel { name, filename, startline, endline, is_virtual },
            ),
            _ => None,
        }
    }
}

impl FunctionInfoParse {
    /// Makes a function from the five cells as they were read: the texts
    /// of the first two, the numbers in the next two, the truth value in
    /// the last. A cell that is missing or could not be read leaves no
    /// function.
    pub fn from_cells(
        name: Option<&str>,
        filename: Option<&str>,
        startline: Option<u32>,
        endline: Option<u32>,
        is_virtual: Option<bool>,
    ) -> (r: Option<FunctionInfoParse>)
        ensures
            r.deep_view() == FunctionInfoModel::from_cells(
                name.deep_view(),
                filename.deep_view(),
                startline,
                endline,
                is_virtual,
            ),
    {
        match (name, filename, startline, endline, is_virtual) {
            (Some(name), Some(filename), Some(startline), Some(endline), Some(is_virtual)) => Some(
                FunctionInfoParse {
                    name: String::from_str(name),
                    filename: String::from_str(filename),
                    startline,
                    endline,
                    is_virtual,
                },
            ),
            _ => None,
        }
    }
}

impl Record for FunctionInfoParse {
    open spec fn row_model(header: Seq<Seq<char>>, row: Seq<Seq<char>>) -> Option<
        FunctionInfoModel,
    > {
        FunctionInfoModel::from_cells(
            cell_of(header, row, "name"@),
            cell_of(header, row, "filename"@),
            number_in(cell_of(header, row, "startline"@)),
            number_in(cell_of(header, row, "endline"@)),
            flag_in(cell_of(header, row, "is_virtual"@)),
        )
    }

    fn from_row(header: &Vec<String>, row: &Vec<String>) -> (r: Option<Self>) {
        FunctionInfoParse::from_cells(
            text_cell(header, row, "name"),
            text_cell(header, row, "filename"),
            number_cell(header, row, "startline"),
            number_cell(header, row, "endline"),
            flag_cell(header, row, "is_virtual"),
        )
    }
}

/// A function that overrides another, with its span: the columns `name`,
/// `filename`, `startline`, `endline`.
#[derive(Debug)]
pub struct OverrideInfoParse {
    pub name: String,
    pub filename: String,
    pub startline: u32,
    pub endline: u32,
}

/// The mathematical content of an [`OverrideInfoParse`].
pub struct OverrideInfoModel {
    pub name: Seq<char>,
    pub filename: Seq<char>,
    pub startline: u32,
    pub endline: u32,
}

impl DeepView for OverrideInfoParse {
    type V = OverrideInfoModel;

    open spec fn deep_view(&self) -> OverrideInfoModel {
        OverrideInfoModel {
            name: self.name@,
            filename: self.filename@,
            startline: self.startline,
            endline: self.endline,
        }
    }
}

impl OverrideInfoModel {
    /// The overriding function that four cells make, where all four could
    /// be read.
    pub open spec fn from_cells(
        name: Option<Seq<char>>,
        filename: Option<Seq<char>>,
        startline: Option<u32>,
        endline: Option<u32>,
    ) -> Option<OverrideInfoModel> {
        match (name, filename, startline, endline) {
            (Some(name), Some(filename), Some(startline), Some(endline)) => Some(
                OverrideInfoModel { name, filename, startline, endline },
            ),
            _ => None,
        }
    }
}

impl OverrideInfoParse {
    /// Makes an overriding function from the four cells as they were
    /// read: the texts of the first two, the numbers in the other two. A
    /// cell that is missing or holds no number leaves no function.
    pub fn from_cells(
        name: Option<&str>,
        filename: Option<&str>,
        startline: Option<u32>,
        endline: Option<u32>,
    ) -> (r: Option<OverrideInfoParse>)
        ensures
            r.deep_view() == OverrideInfoModel::from_cells(
                name.deep_view(),
                filename.deep_view(),
                startline,
                endline,
            ),
    {
        match (name, filename, startline, endline) {
            (Some(name), Some(filename), Some(startline), Some(endline)) => Some(
                OverrideInfoParse {
                    name: String::from_str(name),
                    filename: String::from_str(filename),
                    startline,
                    endline,
                },
            ),
            _ => None,
        }
    }
}

impl Record for OverrideInfoParse {
    open spec fn row_model(header: Seq<Seq<char>>, row: Seq<Seq<char>>) -> Option<
        OverrideInfoModel,
    > {
        OverrideInfoModel::from_cells(
            cell_of(header, row, "name"@),
            cell_of(header, row, "filename"@),
            number_in(cell_of(header, row, "startline"@)),
            number_in(cell_of(header, row, "endline"@)),
        )
    }

    fn from_row(header: &Vec<String>, row: &Vec<String>) -> (r: Option<Self>) {
        OverrideInfoParse::from_cells(
            text_cell(header, row, "name"),
            text_cell(header, row, "filename"),
            number_cell(header, row, "startline"),
            number_cell(header, row, "endline"),
        )
    }
}

} // verus!
