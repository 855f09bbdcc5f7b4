use vstd::prelude::*;

verus! {

/// Failures that stop an operation.
#[derive(Debug, Clone)]
pub enum AppError {
    FileExists,
    NoOutputFilename,
    AssetNotFound,
    MultipleValuesDetectedForProperty,
    AssetDoesNotHavePropertyName(String),
    MissingField(String),
    InvalidIdentifier(String),
}

/// The text that reports an error to the user.
pub open spec fn error_message(e: AppError) -> Seq<char> {
    match e {
        AppError::FileExists => "File already exists, can't over write"@,
        AppError::NoOutputFilename => "Must provide an output filename"@,
        AppError::AssetNotFound => "Asset not found"@,
        AppError::MultipleValuesDetectedForProperty =>
            "Unable to continue with operation; Multiple values detected for property"@,
        AppError::AssetDoesNotHavePropertyName(name) =>
            "Unable to continue with operation; Asset does not have a property named "@ + name@,
        AppError::MissingField(name) => "Response is missing the field "@ + name@,
        AppError::InvalidIdentifier(text) => "Not a valid identifier: "@ + text@,
    }
}

impl AppError {
    /// The text that reports this error to the user.
    pub fn message(&self) -> (r: String)
        ensures
            r@ == error_message(*self),
    {
        match self {
            AppError::FileExists => String::from_str("File already exists, can't over write"),
            AppError::NoOutputFilename => String::from_str("Must provide an output filename"),
            AppError::AssetNotFound => String::from_str("Asset not found"),
            AppError::MultipleValuesDetectedForProperty => String::from_str(
                "Unable to continue with operation; Multiple values detected for property",
            ),
            AppError::AssetDoesNotHavePropertyName(name) => {
                let mut r = String::from_str(
                    "Unable to continue with operation; Asset does not have a property named ",
                );
                r.append(name.as_str());
                r
            },
            AppError::MissingField(name) => {
                let mut r = String::from_str("Response is missing the field ");
                r.append(name.as_str());
                r
            },
            AppError::InvalidIdentifier(text) => {
                let mut r = String::from_str("Not a valid identifier: ");
                r.append(text.as_str());
                r
            },
        }
    }
}

} // verus!
