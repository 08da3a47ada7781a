//! Copies of syntax trees.
use vstd::prelude::*;
use crate::ast::types::{models, lemma_models_push};
use crate::ast::{AliasType, ArrayExpr, ArrayType, AssertExpr, AssignmentStmt, AssignmentTarget, Attribute, BinaryExpr, Block, BlockExpr, BlockStmt, BreakStmt, CallExpr, CastExpr, CatchHandler, CatchHandlerStmt, ChannelType, ConditionalExpr, ConstantDecl, ConstantDeclStmt, ContinueStmt, Declaration, DeferStmt, ErrorType, ExportItem, ExportStmt, Expression, FieldAccessExpr, FieldAccessTarget, FieldInit, FieldPattern, ForExpr, ForStmt, FunctionDecl, FunctionType, GenericParam, GoExpr, GoStmt, IfExpr, IfStmt, ImplDecl, ImportDecl, IndexAccessExpr, IndexAccessTarget, InterfaceDecl, InterfaceMethod, InterfaceType, LambdaExpr, Literal, MapEntry, MapExpr, MapType, MatchArm, MatchArmStmt, MatchExpr, MatchStmt, MethodCallExpr, NewExpr, OptionalType, Parameter, Pattern, PointerType, Program, ReturnStmt, SelectCase, SelectCaseStmt, SelectExpr, SelectStmt, SliceType, SourceInfo, Statement, StructDecl, StructExpr, StructField, StructPattern, StructType, ThrowStmt, TryExpr, TryStmt, TupleExpr, TupleType, Type, TypeContext, TypeDecl, UnaryExpr, UnionType, VariableDecl, VariableDeclStmt, WhileExpr, WhileStmt};

verus! {

impl Clone for ArrayType {
    fn clone(&self) -> (res: Self)
        ensures
            Type::Array(res).model() == Type::Array(*self).model(),
        decreases *self,
    {
        ArrayType {
            element_type: Box::new((*self.element_type).clone()),
            size: match &self.size { Some(v) => Some(*v), None => None },
            location: self.location,
        }
    }
}

impl Clone for MapType {
    fn clone(&self) -> (res: Self)
        ensures
            Type::MapOf(res).model() == Type::MapOf(*self).model(),
        decreases *self,
    {
        MapType {
            key_type: Box::new((*self.key_type).clone()),
            value_type: Box::new((*self.value_type).clone()),
            location: self.location,
        }
    }
}

impl Clone for TupleType {
    fn clone(&self) -> (res: Self)
        ensures
            Type::Tuple(res).model() == Type::Tuple(*self).model(),
        decreases *self,
    {
        TupleType {
            element_types: clone_vec_type(&self.element_types),
            location: self.location,
        }
    }
}

impl Clone for StructType {
    fn clone(&self) -> (res: Self)
        ensures
            Type::Struct(res).model() == Type::Struct(*self).model(),
        decreases *self,
    {
        StructType {
            name: self.name.clone(),
            type_args: clone_vec_type(&self.type_args),
            location: self.location,
        }
    }
}

impl Clone for InterfaceType {
    fn clone(&self) -> (res: Self)
        ensures
            Type::Interface(res).model() == Type::Interface(*self).model(),
        decreases *self,
    {
        InterfaceType {
            name: self.name.clone(),
            type_args: clone_vec_type(&self.type_args),
            location: self.location,
        }
    }
}

impl Clone for FunctionType {
    fn clone(&self) -> (res: Self)
        ensures
            Type::Function(res).model() == Type::Function(*self).model(),
        decreases *self,
    {
        FunctionType {
            parameter_types: clone_vec_type(&self.parameter_types),
            return_type: match &self.return_type { Some(v) => Some(Box::new((**v).clone())), None => None },
            variadic: self.variadic,
            location: self.location,
        }
    }
}

impl Clone for PointerType {
    fn clone(&self) -> (res: Self)
        ensures
            Type::Pointer(res).model() == Type::Pointer(*self).model(),
        decreases *self,
    {
        PointerType {
            pointee_type: Box::new((*self.pointee_type).clone()),
            mutable: self.mutable,
            reference_counted: self.reference_counted,
            location: self.location,
        }
    }
}

impl Clone for SliceType {
    fn clone(&self) -> (res: Self)
        ensures
            Type::Slice(res).model() == Type::Slice(*self).model(),
        decreases *self,
    {
        SliceType {
            element_type: Box::new((*self.element_type).clone()),
            location: self.location,
        }
    }
}

impl Clone for ChannelType {
    fn clone(&self) -> (res: Self)
        ensures
            Type::Channel(res).model() == Type::Channel(*self).model(),
        decreases *self,
    {
        ChannelType {
            element_type: Box::new((*self.element_type).clone()),
            direction: self.direction,
            buffer_size: match &self.buffer_size { Some(v) => Some(*v), None => None },
            location: self.location,
        }
    }
}

impl Clone for OptionalType {
    fn clone(&self) -> (res: Self)
        ensures
            Type::Optional(res).model() == Type::Optional(*self).model(),
        decreases *self,
    {
        OptionalType {
            inner_type: Box::new((*self.inner_type).clone()),
            location: self.location,
        }
    }
}

impl Clone for ErrorType {
    fn clone(&self) -> (res: Self)
        ensures
            Type::Error(res).model() == Type::Error(*self).model(),
        decreases *self,
    {
        ErrorType {
            inner_type: Box::new((*self.inner_type).clone()),
            location: self.location,
        }
    }
}

impl Clone for UnionType {
    fn clone(&self) -> (res: Self)
        ensures
            Type::Union(res).model() == Type::Union(*self).model(),
        decreases *self,
    {
        UnionType {
            member_types: clone_vec_type(&self.member_types),
            location: self.location,
        }
    }
}

impl Clone for AliasType {
    fn clone(&self) -> (res: Self)
        ensures
            Type::Alias(res).model() == Type::Alias(*self).model(),
        decreases *self,
    {
        AliasType {
            name: self.name.clone(),
            type_args: clone_vec_type(&self.type_args),
            location: self.location,
        }
    }
}

impl Clone for Parameter {
    fn clone(&self) -> (res: Self)
        decreases *self,
    {
        Parameter {
            name: self.name.clone(),
            param_type: self.param_type.clone(),
            default_value: match &self.default_value { Some(v) => Some(v.clone()), None => None },
            location: self.location,
        }
    }
}

impl Clone for TypeContext {
    fn clone(&self) -> (res: Self)
        decreases *self,
    {
        TypeContext {
            bindings: clone_vec_binding(&self.bindings),
            generics: clone_vec_string(&self.generics),
        }
    }
}

impl Clone for CallExpr {
    fn clone(&self) -> (res: Self)
        decreases *self,
    {
        CallExpr {
            callee: Box::new((*self.callee).clone()),
            type_args: clone_vec_type(&self.type_args),
            arguments: clone_vec_expression(&self.arguments),
            location: self.location,
        }
    }
}

impl Clone for MethodCallExpr {
    fn clone(&self) -> (res: Self)
        decreases *self,
    {
        MethodCallExpr {
            object: Box::new((*self.object).clone()),
            method: self.method.clone(),
            type_args: clone_vec_type(&self.type_args),
            arguments: clone_vec_expression(&self.arguments),
            location: self.location,
        }
    }
}

impl Clone for BinaryExpr {
    fn clone(&self) -> (res: Self)
        decreases *self,
    {
        BinaryExpr {
            left: Box::new((*self.left).clone()),
            operator: self.operator,
            right: Box::new((*self.right).clone()),
            location: self.location,
        }
    }
}

impl Clone for UnaryExpr {
    fn clone(&self) -> (res: Self)
        decreases *self,
    {
        UnaryExpr {
            operator: self.operator,
            operand: Box::new((*self.operand).clone()),
            location: self.location,
        }
    }
}

impl Clone for ConditionalExpr {
    fn clone(&self) -> (res: Self)
        decreases *self,
    {
        ConditionalExpr {
            condition: Box::new((*self.condition).clone()),
            true_expr: Box::new((*self.true_expr).clone()),
            false_expr: Box::new((*self.false_expr).clone()),
            location: self.location,
        }
    }
}

impl Clone for ArrayExpr {
    fn clone(&self) -> (res: Self)
        decreases *self,
    {
        ArrayExpr {
            elements: clone_vec_expression(&self.elements),
            location: self.location,
        }
    }
}

impl Clone for MapExpr {
    fn clone(&self) -> (res: Self)
        decreases *self,
    {
        MapExpr {
            entries: clone_vec_mapentry(&self.entries),
            location: self.location,
        }
    }
}

impl Clone for MapEntry {
    fn clone(&self) -> (res: Self)
        decreases *self,
    {
        MapEntry {
            key: self.key.clone(),
            value: self.value.clone(),
            location: self.location,
        }
    }
}

impl Clone for TupleExpr {
    fn clone(&self) -> (res: Self)
        decreases *self,
    {
        TupleExpr {
            elements: clone_vec_expression(&self.elements),
            location: self.location,
        }
    }
}

impl Clone for StructExpr {
    fn clone(&self) -> (res: Self)
        decreases *self,
    {
        StructExpr {
            struct_type: self.struct_type.clone(),
            fields: clone_vec_fieldinit(&self.fields),
            location: self.location,
        }
    }
}

impl Clone for FieldInit {
    fn clone(&self) -> (res: Self)
        decreases *self,
    {
        FieldInit {
            name: self.name.clone(),
            value: self.value.clone(),
            location: self.location,
        }
    }
}

impl Clone for FieldAccessExpr {
    fn clone(&self) -> (res: Self)
        decreases *self,
    {
        FieldAccessExpr {
            object: Box::new((*self.object).clone()),
            field: self.field.clone(),
            location: self.location,
        }
    }
}

impl Clone for IndexAccessExpr {
    fn clone(&self) -> (res: Self)
        decreases *self,
    {
        IndexAccessExpr {
            object: Box::new((*self.object).clone()),
            index: Box::new((*self.index).clone()),
            location: self.location,
        }
    }
}

impl Clone for CastExpr {
    fn clone(&self) -> (res: Self)
        decreases *self,
    {
        CastExpr {
            expr: Box::new((*self.expr).clone()),
            target_type: self.target_type.clone(),
            location: self.location,
        }
    }
}

impl Clone for AssertExpr {
    fn clone(&self) -> (res: Self)
        decreases *self,
    {
        AssertExpr {
            expr: Box::new((*self.expr).clone()),
            asserted_type: self.asserted_type.clone(),
            location: self.location,
        }
    }
}

impl Clone for LambdaExpr {
    fn clone(&self) -> (res: Self)
        decreases *self,
    {
        LambdaExpr {
            parameters: clone_vec_parameter(&self.parameters),
            return_type: match &self.return_type { Some(v) => Some(v.clone()), None => None },
            body: Box::new((*self.body).clone()),
            location: self.location,
        }
    }
}

impl Clone for MatchExpr {
    fn clone(&self) -> (res: Self)
        decreases *self,
    {
        MatchExpr {
            expr: Box::new((*self.expr).clone()),
            arms: clone_vec_matcharm(&self.arms),
            location: self.location,
        }
    }
}

impl Clone for MatchArm {
    fn clone(&self) -> (res: Self)
        decreases *self,
    {
        MatchArm {
            pattern: self.pattern.clone(),
            guard: match &self.guard { Some(v) => Some(v.clone()), None => None },
            body: self.body.clone(),
            location: self.location,
        }
    }
}

impl Clone for StructPattern {
    fn clone(&self) -> (res: Self)
        decreases *self,
    {
        StructPattern {
            struct_type: self.struct_type.clone(),
            fields: clone_vec_fieldpattern(&self.fields),
            location: self.location,
        }
    }
}

impl Clone for FieldPattern {
    fn clone(&self) -> (res: Self)
        decreases *self,
    {
        FieldPattern {
            name: self.name.clone(),
            pattern: self.pattern.clone(),
            location: self.location,
        }
    }
}

impl Clone for BlockExpr {
    fn clone(&self) -> (res: Self)
        decreases *self,
    {
        BlockExpr {
            statements: clone_vec_statement(&self.statements),
            final_expr: match &self.final_expr { Some(v) => Some(Box::new((**v).clone())), None => None },
            location: self.location,
        }
    }
}

impl Clone for IfExpr {
    fn clone(&self) -> (res: Self)
        decreases *self,
    {
        IfExpr {
            condition: Box::new((*self.condition).clone()),
            then_branch: Box::new((*self.then_branch).clone()),
            else_branch: match &self.else_branch { Some(v) => Some(Box::new((**v).clone())), None => None },
            location: self.location,
        }
    }
}

impl Clone for ForExpr {
    fn clone(&self) -> (res: Self)
        decreases *self,
    {
        ForExpr {
            variable: self.variable.clone(),
            iterable: Box::new((*self.iterable).clone()),
            body: Box::new((*self.body).clone()),
            location: self.location,
        }
    }
}

impl Clone for WhileExpr {
    fn clone(&self) -> (res: Self)
        decreases *self,
    {
        WhileExpr {
            condition: Box::new((*self.condition).clone()),
            body: Box::new((*self.body).clone()),
            location: self.location,
        }
    }
}

impl Clone for TryExpr {
    fn clone(&self) -> (res: Self)
        decreases *self,
    {
        TryExpr {
            expr: Box::new((*self.expr).clone()),
            catch_handlers: clone_vec_catchhandler(&self.catch_handlers),
            location: self.location,
        }
    }
}

impl Clone for CatchHandler {
    fn clone(&self) -> (res: Self)
        decreases *self,
    {
        CatchHandler {
            exception_type: self.exception_type.clone(),
            variable: self.variable.clone(),
            body: self.body.clone(),
            location: self.location,
        }
    }
}

impl Clone for SelectExpr {
    fn clone(&self) -> (res: Self)
        decreases *self,
    {
        SelectExpr {
            cases: clone_vec_selectcase(&self.cases),
            default_case: match &self.default_case { Some(v) => Some(Box::new((**v).clone())), None => None },
            location: self.location,
        }
    }
}

impl Clone for SelectCase {
    fn clone(&self) -> (res: Self)
        decreases *self,
    {
        SelectCase {
            channel: self.channel.clone(),
            body: self.body.clone(),
            location: self.location,
        }
    }
}

impl Clone for GoExpr {
    fn clone(&self) -> (res: Self)
        decreases *self,
    {
        GoExpr {
            call: self.call.clone(),
            location: self.location,
        }
    }
}

impl Clone for NewExpr {
    fn clone(&self) -> (res: Self)
        decreases *self,
    {
        NewExpr {
            object_type: self.object_type.clone(),
            initializer: match &self.initializer { Some(v) => Some(Box::new((**v).clone())), None => None },
            location: self.location,
        }
    }
}

impl Clone for VariableDeclStmt {
    fn clone(&self) -> (res: Self)
        decreases *self,
    {
        VariableDeclStmt {
            name: self.name.clone(),
            var_type: match &self.var_type { Some(v) => Some(v.clone()), None => None },
            initializer: match &self.initializer { Some(v) => Some(v.clone()), None => None },
            mutable: self.mutable,
            location: self.location,
        }
    }
}

impl Clone for ConstantDeclStmt {
    fn clone(&self) -> (res: Self)
        decreases *self,
    {
        ConstantDeclStmt {
            name: self.name.clone(),
            const_type: match &self.const_type { Some(v) => Some(v.clone()), None => None },
            value: self.value.clone(),
            location: self.location,
        }
    }
}

impl Clone for AssignmentStmt {
    fn clone(&self) -> (res: Self)
        decreases *self,
    {
        AssignmentStmt {
            target: self.target.clone(),
            operator: self.operator,
            value: self.value.clone(),
            location: self.location,
        }
    }
}

impl Clone for FieldAccessTarget {
    fn clone(&self) -> (res: Self)
        decreases *self,
    {
        FieldAccessTarget {
            object: self.object.clone(),
            field: self.field.clone(),
            location: self.location,
        }
    }
}

impl Clone for IndexAccessTarget {
    fn clone(&self) -> (res: Self)
        decreases *self,
    {
        IndexAccessTarget {
            object: self.object.clone(),
            index: self.index.clone(),
            location: self.location,
        }
    }
}

impl Clone for IfStmt {
    fn clone(&self) -> (res: Self)
        decreases *self,
    {
        IfStmt {
            condition: self.condition.clone(),
            then_branch: Box::new((*self.then_branch).clone()),
            else_branch: match &self.else_branch { Some(v) => Some(Box::new((**v).clone())), None => None },
            location: self.location,
        }
    }
}

impl Clone for ForStmt {
    fn clone(&self) -> (res: Self)
        decreases *self,
    {
        ForStmt {
            variable: self.variable.clone(),
            iterable: self.iterable.clone(),
            body: Box::new((*self.body).clone()),
            location: self.location,
        }
    }
}

impl Clone for WhileStmt {
    fn clone(&self) -> (res: Self)
        decreases *self,
    {
        WhileStmt {
            condition: self.condition.clone(),
            body: Box::new((*self.body).clone()),
            location: self.location,
        }
    }
}

impl Clone for MatchStmt {
    fn clone(&self) -> (res: Self)
        decreases *self,
    {
        MatchStmt {
            expr: self.expr.clone(),
            arms: clone_vec_matcharmstmt(&self.arms),
            location: self.location,
        }
    }
}

impl Clone for MatchArmStmt {
    fn clone(&self) -> (res: Self)
        decreases *self,
    {
        MatchArmStmt {
            pattern: self.pattern.clone(),
            guard: match &self.guard { Some(v) => Some(v.clone()), None => None },
            body: self.body.clone(),
            location: self.location,
        }
    }
}

impl Clone for ReturnStmt {
    fn clone(&self) -> (res: Self)
        decreases *self,
    {
        ReturnStmt {
            value: match &self.value { Some(v) => Some(v.clone()), None => None },
            location: self.location,
        }
    }
}

impl Clone for BreakStmt {
    fn clone(&self) -> (res: Self)
        decreases *self,
    {
        BreakStmt {
            label: match &self.label { Some(v) => Some(v.clone()), None => None },
            location: self.location,
        }
    }
}

impl Clone for ContinueStmt {
    fn clone(&self) -> (res: Self)
        decreases *self,
    {
        ContinueStmt {
            label: match &self.label { Some(v) => Some(v.clone()), None => None },
            location: self.location,
        }
    }
}

impl Clone for TryStmt {
    fn clone(&self) -> (res: Self)
        decreases *self,
    {
        TryStmt {
            try_block: Box::new((*self.try_block).clone()),
            catch_handlers: clone_vec_catchhandlerstmt(&self.catch_handlers),
            location: self.location,
        }
    }
}

impl Clone for CatchHandlerStmt {
    fn clone(&self) -> (res: Self)
        decreases *self,
    {
        CatchHandlerStmt {
            exception_type: self.exception_type.clone(),
            variable: self.variable.clone(),
            body: self.body.clone(),
            location: self.location,
        }
    }
}

impl Clone for ThrowStmt {
    fn clone(&self) -> (res: Self)
        decreases *self,
    {
        ThrowStmt {
            exception: self.exception.clone(),
            location: self.location,
        }
    }
}

impl Clone for SelectStmt {
    fn clone(&self) -> (res: Self)
        decreases *self,
    {
        SelectStmt {
            cases: clone_vec_selectcasestmt(&self.cases),
            default_case: match &self.default_case { Some(v) => Some(Box::new((**v).clone())), None => None },
            location: self.location,
        }
    }
}

impl Clone for SelectCaseStmt {
    fn clone(&self) -> (res: Self)
        decreases *self,
    {
        SelectCaseStmt {
            channel: self.channel.clone(),
            body: self.body.clone(),
            location: self.location,
        }
    }
}

impl Clone for GoStmt {
    fn clone(&self) -> (res: Self)
        decreases *self,
    {
        GoStmt {
            call: self.call.clone(),
            location: self.location,
        }
    }
}

impl Clone for BlockStmt {
    fn clone(&self) -> (res: Self)
        decreases *self,
    {
        BlockStmt {
            statements: clone_vec_statement(&self.statements),
            location: self.location,
        }
    }
}

impl Clone for ExportStmt {
    fn clone(&self) -> (res: Self)
        decreases *self,
    {
        ExportStmt {
            items: clone_vec_exportitem(&self.items),
            location: self.location,
        }
    }
}

impl Clone for DeferStmt {
    fn clone(&self) -> (res: Self)
        decreases *self,
    {
        DeferStmt {
            expr: self.expr.clone(),
            location: self.location,
        }
    }
}

impl Clone for FunctionDecl {
    fn clone(&self) -> (res: Self)
        ensures
            res.name == self.name,
            res.location == self.location,
        decreases *self,
    {
        FunctionDecl {
            name: self.name.clone(),
            generics: clone_vec_genericparam(&self.generics),
            parameters: clone_vec_parameter(&self.parameters),
            return_type: match &self.return_type { Some(v) => Some(v.clone()), None => None },
            body: match &self.body { Some(v) => Some(v.clone()), None => None },
            attributes: clone_vec_attribute(&self.attributes),
            location: self.location,
        }
    }
}

impl Clone for GenericParam {
    fn clone(&self) -> (res: Self)
        decreases *self,
    {
        GenericParam {
            name: self.name.clone(),
            constraints: clone_vec_type(&self.constraints),
            location: self.location,
        }
    }
}

impl Clone for VariableDecl {
    fn clone(&self) -> (res: Self)
        ensures
            res.name == self.name,
            res.location == self.location,
            res.mutable == self.mutable,
        decreases *self,
    {
        VariableDecl {
            name: self.name.clone(),
            var_type: match &self.var_type { Some(v) => Some(v.clone()), None => None },
            initializer: match &self.initializer { Some(v) => Some(v.clone()), None => None },
            mutable: self.mutable,
            location: self.location,
        }
    }
}

impl Clone for ConstantDecl {
    fn clone(&self) -> (res: Self)
        ensures
            res.name == self.name,
            res.location == self.location,
        decreases *self,
    {
        ConstantDecl {
            name: self.name.clone(),
            const_type: match &self.const_type { Some(v) => Some(v.clone()), None => None },
            value: self.value.clone(),
            location: self.location,
        }
    }
}

impl Clone for TypeDecl {
    fn clone(&self) -> (res: Self)
        ensures
            res.name == self.name,
            res.location == self.location,
        decreases *self,
    {
        TypeDecl {
            name: self.name.clone(),
            type_def: self.type_def.clone(),
            location: self.location,
        }
    }
}

impl Clone for StructDecl {
    fn clone(&self) -> (res: Self)
        ensures
            res.name == self.name,
            res.location == self.location,
        decreases *self,
    {
        StructDecl {
            name: self.name.clone(),
            generics: clone_vec_genericparam(&self.generics),
            fields: clone_vec_structfield(&self.fields),
            methods: clone_vec_functiondecl(&self.methods),
            location: self.location,
        }
    }
}

impl Clone for InterfaceDecl {
    fn clone(&self) -> (res: Self)
        ensures
            res.name == self.name,
            res.location == self.location,
        decreases *self,
    {
        InterfaceDecl {
            name: self.name.clone(),
            generics: clone_vec_genericparam(&self.generics),
            methods: clone_vec_interfacemethod(&self.methods),
            location: self.location,
        }
    }
}

impl Clone for InterfaceMethod {
    fn clone(&self) -> (res: Self)
        decreases *self,
    {
        InterfaceMethod {
            name: self.name.clone(),
            parameters: clone_vec_parameter(&self.parameters),
            return_type: match &self.return_type { Some(v) => Some(v.clone()), None => None },
            location: self.location,
        }
    }
}

impl Clone for ImportDecl {
    fn clone(&self) -> (res: Self)
        ensures
            res.path == self.path,
            res.location == self.location,
            res.alias == self.alias,
        decreases *self,
    {
        ImportDecl {
            path: self.path.clone(),
            items: match &self.items { Some(v) => Some(clone_vec_string(v)), None => None },
            alias: match &self.alias { Some(v) => Some(v.clone()), None => None },
            location: self.location,
        }
    }
}

impl Clone for ImplDecl {
    fn clone(&self) -> (res: Self)
        ensures
            res.self_type == self.self_type,
            res.location == self.location,
        decreases *self,
    {
        ImplDecl {
            self_type: self.self_type.clone(),
            generics: clone_vec_genericparam(&self.generics),
            methods: clone_vec_functiondecl(&self.methods),
            location: self.location,
        }
    }
}

impl Clone for Attribute {
    fn clone(&self) -> (res: Self)
        decreases *self,
    {
        Attribute {
            name: self.name.clone(),
            arguments: clone_vec_expression(&self.arguments),
            location: self.location,
        }
    }
}

impl Clone for Program {
    fn clone(&self) -> (res: Self)
        decreases *self,
    {
        Program {
            declarations: clone_vec_declaration(&self.declarations),
            source_info: self.source_info.clone(),
        }
    }
}

impl Clone for SourceInfo {
    fn clone(&self) -> (res: Self)
        decreases *self,
    {
        SourceInfo {
            file_path: match &self.file_path { Some(v) => Some(v.clone()), None => None },
            source_code: self.source_code.clone(),
        }
    }
}

impl Clone for StructField {
    fn clone(&self) -> (res: Self)
        decreases *self,
    {
        StructField {
            name: self.name.clone(),
            field_type: self.field_type.clone(),
            default_value: match &self.default_value { Some(v) => Some(v.clone()), None => None },
            field_tag: match &self.field_tag { Some(v) => Some(v.clone()), None => None },
            location: self.location,
        }
    }
}

impl Clone for Block {
    fn clone(&self) -> (res: Self)
        decreases *self,
    {
        Block {
            statements: clone_vec_statement(&self.statements),
            location: self.location,
        }
    }
}

impl Clone for Type {
    fn clone(&self) -> (res: Self)
        ensures
            res.model() == self.model(),
        decreases *self,
    {
        match self {
            Type::Basic(x) => Type::Basic(*x),
            Type::Generic(x) => Type::Generic(x.clone()),
            Type::Array(x) => Type::Array(x.clone()),
            Type::MapOf(x) => Type::MapOf(x.clone()),
            Type::Tuple(x) => Type::Tuple(x.clone()),
            Type::Struct(x) => Type::Struct(x.clone()),
            Type::Interface(x) => Type::Interface(x.clone()),
            Type::Function(x) => Type::Function(x.clone()),
            Type::Pointer(x) => Type::Pointer(x.clone()),
            Type::Slice(x) => Type::Slice(x.clone()),
            Type::Channel(x) => Type::Channel(x.clone()),
            Type::Optional(x) => Type::Optional(x.clone()),
            Type::Error(x) => Type::Error(x.clone()),
            Type::Union(x) => Type::Union(x.clone()),
            Type::Alias(x) => Type::Alias(x.clone()),
        }
    }
}

impl Clone for Expression {
    fn clone(&self) -> (res: Self)
        decreases *self,
    {
        match self {
            Expression::Literal(x) => Expression::Literal(x.clone()),
            Expression::Variable(x) => Expression::Variable(x.clone()),
            Expression::Call(x) => Expression::Call(x.clone()),
            Expression::MethodCall(x) => Expression::MethodCall(x.clone()),
            Expression::Binary(x) => Expression::Binary(x.clone()),
            Expression::Unary(x) => Expression::Unary(x.clone()),
            Expression::Conditional(x) => Expression::Conditional(x.clone()),
            Expression::Array(x) => Expression::Array(x.clone()),
            Expression::MapLiteral(x) => Expression::MapLiteral(x.clone()),
            Expression::Tuple(x) => Expression::Tuple(x.clone()),
            Expression::Struct(x) => Expression::Struct(x.clone()),
            Expression::FieldAccess(x) => Expression::FieldAccess(x.clone()),
            Expression::IndexAccess(x) => Expression::IndexAccess(x.clone()),
            Expression::Cast(x) => Expression::Cast(x.clone()),
            Expression::Assert(x) => Expression::Assert(x.clone()),
            Expression::Lambda(x) => Expression::Lambda(x.clone()),
            Expression::Match(x) => Expression::Match(x.clone()),
            Expression::Block(x) => Expression::Block(x.clone()),
            Expression::If(x) => Expression::If(x.clone()),
            Expression::For(x) => Expression::For(x.clone()),
            Expression::While(x) => Expression::While(x.clone()),
            Expression::Try(x) => Expression::Try(x.clone()),
            Expression::Select(x) => Expression::Select(x.clone()),
            Expression::Go(x) => Expression::Go(x.clone()),
            Expression::New(x) => Expression::New(x.clone()),
        }
    }
}

impl Clone for Literal {
    fn clone(&self) -> (res: Self)
        decreases *self,
    {
        match self {
            Literal::Integer(x) => Literal::Integer(*x),
            Literal::Float(x) => Literal::Float(x.clone()),
            Literal::String(x) => Literal::String(x.clone()),
            Literal::Char(x) => Literal::Char(*x),
            Literal::Boolean(x) => Literal::Boolean(*x),
            Literal::Null => Literal::Null,
        }
    }
}

impl Clone for Pattern {
    fn clone(&self) -> (res: Self)
        decreases *self,
    {
        match self {
            Pattern::Literal(x) => Pattern::Literal(x.clone()),
            Pattern::Variable(x) => Pattern::Variable(x.clone()),
            Pattern::Wildcard => Pattern::Wildcard,
            Pattern::Tuple(x) => Pattern::Tuple(clone_vec_pattern(x)),
            Pattern::Struct(x) => Pattern::Struct(x.clone()),
            Pattern::Array(x) => Pattern::Array(clone_vec_pattern(x)),
            Pattern::Type(x) => Pattern::Type(x.clone()),
            Pattern::Or(x) => Pattern::Or(clone_vec_pattern(x)),
        }
    }
}

impl Clone for Statement {
    fn clone(&self) -> (res: Self)
        decreases *self,
    {
        match self {
            Statement::Expression(x) => Statement::Expression(x.clone()),
            Statement::VariableDecl(x) => Statement::VariableDecl(x.clone()),
            Statement::ConstantDecl(x) => Statement::ConstantDecl(x.clone()),
            Statement::Assignment(x) => Statement::Assignment(x.clone()),
            Statement::If(x) => Statement::If(x.clone()),
            Statement::For(x) => Statement::For(x.clone()),
            Statement::While(x) => Statement::While(x.clone()),
            Statement::Match(x) => Statement::Match(x.clone()),
            Statement::Return(x) => Statement::Return(x.clone()),
            Statement::Break(x) => Statement::Break(x.clone()),
            Statement::Continue(x) => Statement::Continue(x.clone()),
            Statement::Try(x) => Statement::Try(x.clone()),
            Statement::Throw(x) => Statement::Throw(x.clone()),
            Statement::Select(x) => Statement::Select(Box::new((**x).clone())),
            Statement::Go(x) => Statement::Go(x.clone()),
            Statement::Block(x) => Statement::Block(x.clone()),
            Statement::Export(x) => Statement::Export(x.clone()),
            Statement::Defer(x) => Statement::Defer(x.clone()),
            Statement::Empty => Statement::Empty,
        }
    }
}

impl Clone for AssignmentTarget {
    fn clone(&self) -> (res: Self)
        decreases *self,
    {
        match self {
            AssignmentTarget::Variable(x) => AssignmentTarget::Variable(x.clone()),
            AssignmentTarget::FieldAccess(x) => AssignmentTarget::FieldAccess(x.clone()),
            AssignmentTarget::IndexAccess(x) => AssignmentTarget::IndexAccess(x.clone()),
        }
    }
}

impl Clone for ExportItem {
    fn clone(&self) -> (res: Self)
        decreases *self,
    {
        match self {
            ExportItem::Function(x) => ExportItem::Function(x.clone()),
        }
    }
}

impl Clone for Declaration {
    fn clone(&self) -> (res: Self)
        ensures
            res.spec_name() == self.spec_name(),
            res.spec_location() == self.spec_location(),
            res is Function <==> self is Function,
            res is Variable <==> self is Variable,
            res is Constant <==> self is Constant,
            res is Type <==> self is Type,
            res is Struct <==> self is Struct,
            res is Interface <==> self is Interface,
            res is Import <==> self is Import,
            res is Impl <==> self is Impl,
        decreases *self,
    {
        match self {
            Declaration::Function(x) => Declaration::Function(x.clone()),
            Declaration::Variable(x) => Declaration::Variable(x.clone()),
            Declaration::Constant(x) => Declaration::Constant(x.clone()),
            Declaration::Type(x) => Declaration::Type(x.clone()),
            Declaration::Struct(x) => Declaration::Struct(x.clone()),
            Declaration::Interface(x) => Declaration::Interface(x.clone()),
            Declaration::Import(x) => Declaration::Import(x.clone()),
            Declaration::Impl(x) => Declaration::Impl(x.clone()),
        }
    }
}

fn clone_vec_binding(v: &Vec<(String, Type)>) -> (res: Vec<(String, Type)>)
    ensures
        res@.len() == v@.len(),
    decreases v@,
{
    let mut r: Vec<(String, Type)> = Vec::new();
    let mut i: usize = 0;
    while i < v.len()
        invariant
            i <= v@.len(),
            r@.len() == i,
        decreases v.len() - i,
    {
        assert(decreases_to!(v@ => v@[i as int]));
        r.push((v[i].0.clone(), v[i].1.clone()));
        i = i + 1;
    }
    r
}

fn clone_vec_attribute(v: &Vec<Attribute>) -> (res: Vec<Attribute>)
    ensures
        res@.len() == v@.len(),
    decreases v@,
{
    let mut r: Vec<Attribute> = Vec::new();
    let mut i: usize = 0;
    while i < v.len()
        invariant
            i <= v@.len(),
            r@.len() == i,
        decreases v.len() - i,
    {
        assert(decreases_to!(v@ => v@[i as int]));
        r.push(v[i].clone());
        i = i + 1;
    }
    r
}

fn clone_vec_catchhandler(v: &Vec<CatchHandler>) -> (res: Vec<CatchHandler>)
    ensures
        res@.len() == v@.len(),
    decreases v@,
{
    let mut r: Vec<CatchHandler> = Vec::new();
    let mut i: usize = 0;
    while i < v.len()
        invariant
            i <= v@.len(),
            r@.len() == i,
        decreases v.len() - i,
    {
        assert(decreases_to!(v@ => v@[i as int]));
        r.push(v[i].clone());
        i = i + 1;
    }
    r
}

fn clone_vec_catchhandlerstmt(v: &Vec<CatchHandlerStmt>) -> (res: Vec<CatchHandlerStmt>)
    ensures
        res@.len() == v@.len(),
    decreases v@,
{
    let mut r: Vec<CatchHandlerStmt> = Vec::new();
    let mut i: usize = 0;
    while i < v.len()
        invariant
            i <= v@.len(),
            r@.len() == i,
        decreases v.len() - i,
    {
        assert(decreases_to!(v@ => v@[i as int]));
        r.push(v[i].clone());
        i = i + 1;
    }
    r
}

fn clone_vec_declaration(v: &Vec<Declaration>) -> (res: Vec<Declaration>)
    ensures
        res@.len() == v@.len(),
    decreases v@,
{
    let mut r: Vec<Declaration> = Vec::new();
    let mut i: usize = 0;
    while i < v.len()
        invariant
            i <= v@.len(),
            r@.len() == i,
        decreases v.len() - i,
    {
        assert(decreases_to!(v@ => v@[i as int]));
        r.push(v[i].clone());
        i = i + 1;
    }
    r
}

fn clone_vec_exportitem(v: &Vec<ExportItem>) -> (res: Vec<ExportItem>)
    ensures
        res@.len() == v@.len(),
    decreases v@,
{
    let mut r: Vec<ExportItem> = Vec::new();
    let mut i: usize = 0;
    while i < v.len()
        invariant
            i <= v@.len(),
            r@.len() == i,
        decreases v.len() - i,
    {
        assert(decreases_to!(v@ => v@[i as int]));
        r.push(v[i].clone());
        i = i + 1;
    }
    r
}

fn clone_vec_expression(v: &Vec<Expression>) -> (res: Vec<Expression>)
    ensures
        res@.len() == v@.len(),
    decreases v@,
{
    let mut r: Vec<Expression> = Vec::new();
    let mut i: usize = 0;
    while i < v.len()
        invariant
            i <= v@.len(),
            r@.len() == i,
        decreases v.len() - i,
    {
        assert(decreases_to!(v@ => v@[i as int]));
        r.push(v[i].clone());
        i = i + 1;
    }
    r
}

fn clone_vec_fieldinit(v: &Vec<FieldInit>) -> (res: Vec<FieldInit>)
    ensures
        res@.len() == v@.len(),
    decreases v@,
{
    let mut r: Vec<FieldInit> = Vec::new();
    let mut i: usize = 0;
    while i < v.len()
        invariant
            i <= v@.len(),
            r@.len() == i,
        decreases v.len() - i,
    {
        assert(decreases_to!(v@ => v@[i as int]));
        r.push(v[i].clone());
        i = i + 1;
    }
    r
}

fn clone_vec_fieldpattern(v: &Vec<FieldPattern>) -> (res: Vec<FieldPattern>)
    ensures
        res@.len() == v@.len(),
    decreases v@,
{
    let mut r: Vec<FieldPattern> = Vec::new();
    let mut i: usize = 0;
    while i < v.len()
        invariant
            i <= v@.len(),
            r@.len() == i,
        decreases v.len() - i,
    {
        assert(decreases_to!(v@ => v@[i as int]));
        r.push(v[i].clone());
        i = i + 1;
    }
    r
}

fn clone_vec_functiondecl(v: &Vec<FunctionDecl>) -> (res: Vec<FunctionDecl>)
    ensures
        res@.len() == v@.len(),
    decreases v@,
{
    let mut r: Vec<FunctionDecl> = Vec::new();
    let mut i: usize = 0;
    while i < v.len()
        invariant
            i <= v@.len(),
            r@.len() == i,
        decreases v.len() - i,
    {
        assert(decreases_to!(v@ => v@[i as int]));
        r.push(v[i].clone());
        i = i + 1;
    }
    r
}

fn clone_vec_genericparam(v: &Vec<GenericParam>) -> (res: Vec<GenericParam>)
    ensures
        res@.len() == v@.len(),
    decreases v@,
{
    let mut r: Vec<GenericParam> = Vec::new();
    let mut i: usize = 0;
    while i < v.len()
        invariant
            i <= v@.len(),
            r@.len() == i,
        decreases v.len() - i,
    {
        assert(decreases_to!(v@ => v@[i as int]));
        r.push(v[i].clone());
        i = i + 1;
    }
    r
}

fn clone_vec_interfacemethod(v: &Vec<InterfaceMethod>) -> (res: Vec<InterfaceMethod>)
    ensures
        res@.len() == v@.len(),
    decreases v@,
{
    let mut r: Vec<InterfaceMethod> = Vec::new();
    let mut i: usize = 0;
    while i < v.len()
        invariant
            i <= v@.len(),
            r@.len() == i,
        decreases v.len() - i,
    {
        assert(decreases_to!(v@ => v@[i as int]));
        r.push(v[i].clone());
        i = i + 1;
    }
    r
}

fn clone_vec_mapentry(v: &Vec<MapEntry>) -> (res: Vec<MapEntry>)
    ensures
        res@.len() == v@.len(),
    decreases v@,
{
    let mut r: Vec<MapEntry> = Vec::new();
    let mut i: usize = 0;
    while i < v.len()
        invariant
            i <= v@.len(),
            r@.len() == i,
        decreases v.len() - i,
    {
        assert(decreases_to!(v@ => v@[i as int]));
        r.push(v[i].clone());
        i = i + 1;
    }
    r
}

fn clone_vec_matcharm(v: &Vec<MatchArm>) -> (res: Vec<MatchArm>)
    ensures
        res@.len() == v@.len(),
    decreases v@,
{
    let mut r: Vec<MatchArm> = Vec::new();
    let mut i: usize = 0;
    while i < v.len()
        invariant
            i <= v@.len(),
            r@.len() == i,
        decreases v.len() - i,
    {
        assert(decreases_to!(v@ => v@[i as int]));
        r.push(v[i].clone());
        i = i + 1;
    }
    r
}

fn clone_vec_matcharmstmt(v: &Vec<MatchArmStmt>) -> (res: Vec<MatchArmStmt>)
    ensures
        res@.len() == v@.len(),
    decreases v@,
{
    let mut r: Vec<MatchArmStmt> = Vec::new();
    let mut i: usize = 0;
    while i < v.len()
        invariant
            i <= v@.len(),
            r@.len() == i,
        decreases v.len() - i,
    {
        assert(decreases_to!(v@ => v@[i as int]));
        r.push(v[i].clone());
        i = i + 1;
    }
    r
}

fn clone_vec_parameter(v: &Vec<Parameter>) -> (res: Vec<Parameter>)
    ensures
        res@.len() == v@.len(),
    decreases v@,
{
    let mut r: Vec<Parameter> = Vec::new();
    let mut i: usize = 0;
    while i < v.len()
        invariant
            i <= v@.len(),
            r@.len() == i,
        decreases v.len() - i,
    {
        assert(decreases_to!(v@ => v@[i as int]));
        r.push(v[i].clone());
        i = i + 1;
    }
    r
}

fn clone_vec_pattern(v: &Vec<Pattern>) -> (res: Vec<Pattern>)
    ensures
        res@.len() == v@.len(),
    decreases v@,
{
    let mut r: Vec<Pattern> = Vec::new();
    let mut i: usize = 0;
    while i < v.len()
        invariant
            i <= v@.len(),
            r@.len() == i,
        decreases v.len() - i,
    {
        assert(decreases_to!(v@ => v@[i as int]));
        r.push(v[i].clone());
        i = i + 1;
    }
    r
}

fn clone_vec_selectcase(v: &Vec<SelectCase>) -> (res: Vec<SelectCase>)
    ensures
        res@.len() == v@.len(),
    decreases v@,
{
    let mut r: Vec<SelectCase> = Vec::new();
    let mut i: usize = 0;
    while i < v.len()
        invariant
            i <= v@.len(),
            r@.len() == i,
        decreases v.len() - i,
    {
        assert(decreases_to!(v@ => v@[i as int]));
        r.push(v[i].clone());
        i = i + 1;
    }
    r
}

fn clone_vec_selectcasestmt(v: &Vec<SelectCaseStmt>) -> (res: Vec<SelectCaseStmt>)
    ensures
        res@.len() == v@.len(),
    decreases v@,
{
    let mut r: Vec<SelectCaseStmt> = Vec::new();
    let mut i: usize = 0;
    while i < v.len()
        invariant
            i <= v@.len(),
            r@.len() == i,
        decreases v.len() - i,
    {
        assert(decreases_to!(v@ => v@[i as int]));
        r.push(v[i].clone());
        i = i + 1;
    }
    r
}

fn clone_vec_statement(v: &Vec<Statement>) -> (res: Vec<Statement>)
    ensures
        res@.len() == v@.len(),
    decreases v@,
{
    let mut r: Vec<Statement> = Vec::new();
    let mut i: usize = 0;
    while i < v.len()
        invariant
            i <= v@.len(),
            r@.len() == i,
        decreases v.len() - i,
    {
        assert(decreases_to!(v@ => v@[i as int]));
        r.push(v[i].clone());
        i = i + 1;
    }
    r
}

fn clone_vec_string(v: &Vec<String>) -> (res: Vec<String>)
    ensures
        res@.len() == v@.len(),
    decreases v@,
{
    let mut r: Vec<String> = Vec::new();
    let mut i: usize = 0;
    while i < v.len()
        invariant
            i <= v@.len(),
            r@.len() == i,
        decreases v.len() - i,
    {
        assert(decreases_to!(v@ => v@[i as int]));
        r.push(v[i].clone());
        i = i + 1;
    }
    r
}

fn clone_vec_structfield(v: &Vec<StructField>) -> (res: Vec<StructField>)
    ensures
        res@.len() == v@.len(),
    decreases v@,
{
    let mut r: Vec<StructField> = Vec::new();
    let mut i: usize = 0;
    while i < v.len()
        invariant
            i <= v@.len(),
            r@.len() == i,
        decreases v.len() - i,
    {
        assert(decreases_to!(v@ => v@[i as int]));
        r.push(v[i].clone());
        i = i + 1;
    }
    r
}

fn clone_vec_type(v: &Vec<Type>) -> (res: Vec<Type>)
    ensures
        res@.len() == v@.len(),
        models(res@) == models(v@),
    decreases v@,
{
    let mut r: Vec<Type> = Vec::new();
    let mut i: usize = 0;
    proof {
        assert(v@.subrange(0, 0) =~= r@);
    }
    while i < v.len()
        invariant
            i <= v@.len(),
            r@.len() == i,
            models(r@) == models(v@.subrange(0, i as int)),
        decreases v.len() - i,
    {
        assert(decreases_to!(v@ => v@[i as int]));
        let c = v[i].clone();
        proof {
            lemma_models_push(r@, c);
            lemma_models_push(v@.subrange(0, i as int), v@[i as int]);
            assert(v@.subrange(0, i + 1) =~= v@.subrange(0, i as int).push(v@[i as int]));
        }
        r.push(c);
        i = i + 1;
    }
    proof {
        assert(v@.subrange(0, v@.len() as int) =~= v@);
    }
    r
}

} // verus!
