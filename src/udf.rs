//! Requests to create a user-defined function, and the replies to them.
use vstd::prelude::*;
use vstd::string::StringExecFns;

verus! {

/// Program that compiles the SQL program together with a user-defined function.
pub const UDF_COMPILER: &'static str = "./sql-to-dbsp";

/// A request to create a user-defined function.
pub struct UdfRequest {
    pub name: String,
    pub definition: String,
}

/// The reply to a [`UdfRequest`].
pub struct UdfResponse {
    pub message: String,
}

/// Name of the file that holds the definition of the function `name`.
pub open spec fn udf_file_name(name: Seq<char>) -> Seq<char> {
    name + ".rs"@
}

/// Arguments of the compiler for the definition stored in `file`.
pub open spec fn compiler_args(file: Seq<char>) -> Seq<Seq<char>> {
    seq!["test.sql"@, "--udf"@, file, "--handles"@, "-o"@, "output.rs"@]
}

impl UdfRequest {
    /// The file that the definition is written to: the name with `.rs` appended.
    pub fn file_name(&self) -> (r: String)
        ensures
            r@ == udf_file_name(self.name@),
    {
        let mut s = String::from_str(self.name.as_str());
        s.append(".rs");
        s
    }

    /// The arguments with which the compiler is run on `file`.
    pub fn compiler_args(file: &str) -> (r: Vec<String>)
        ensures
            r@.map_values(|a: String| a@) == compiler_args(file@),
    {
        let mut v: Vec<String> = Vec::new();
        v.push(String::from_str("test.sql"));
        v.push(String::from_str("--udf"));
        v.push(String::from_str(file));
        v.push(String::from_str("--handles"));
        v.push(String::from_str("-o"));
        v.push(String::from_str("output.rs"));
        assert(v@.map_values(|a: String| a@) =~= compiler_args(file@));
        v
    }
}

impl UdfResponse {
    /// The reply when the function `name` was compiled.
    pub fn created(name: &str) -> (r: UdfResponse)
        ensures
            r.message@ == "UDF "@ + name@ + " created"@,
    {
        let mut s = String::from_str("UDF ");
        s.append(name);
        s.append(" created");
        UdfResponse { message: s }
    }

    /// The reply when the compiler failed with the diagnostics `error`.
    pub fn failed(error: &str) -> (r: UdfResponse)
        ensures
            r.message@ == "Failed to create UDF: "@ + error@,
    {
        let mut s = String::from_str("Failed to create UDF: ");
        s.append(error);
        UdfResponse { message: s }
    }
}

} // verus!
