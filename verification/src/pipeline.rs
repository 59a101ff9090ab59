use vstd::prelude::*;

verus! {

/// The settings of a pipeline layout.
pub struct PipelineLayoutBuilder {
    label: Option<String>,
}

impl View for PipelineLayoutBuilder {
    type V = Option<Seq<char>>;

    closed spec fn view(&self) -> Option<Seq<char>> {
        match self.label {
            Some(l) => Some(l@),
            None => None,
        }
    }
}

impl Default for PipelineLayoutBuilder {
    fn default() -> (b: Self)
        ensures
            b@ is None,
    {
        PipelineLayoutBuilder { label: None }
    }
}

impl PipelineLayoutBuilder {
    /// A builder without a label.
    pub fn new() -> (b: Self)
        ensures
            b@ is None,
    {
        Self::default()
    }

    /// Sets the label.
    pub fn label(&mut self, label: &str) -> (b: &mut Self)
        ensures
            b@ == Some(label@),
            *final(self) == *final(b),
    {
        self.label = Some(label.to_owned());
        self
    }

    /// The label, if any.
    pub fn get_label(&self) -> (l: Option<&String>)
        ensures
            match l {
                Some(s) => self@ == Some(s@),
                None => self@ is None,
            },
    {
        match &self.label {
            Some(s) => Some(s),
            None => None,
        }
    }
}

} // verus!
