//! Árvore sintática abstrata (AST) do kaju.

use vstd::prelude::*;
use crate::token::Span;
use crate::parser::{CmdV, CorpoV, MembrosV, ParamV, RamosV};

verus! {

/// Operadores binários aritméticos, de comparação e de bits.
#[derive(Clone, Copy, Debug, PartialEq, Eq, Structural)]
pub enum OpBinaria {
    Soma,
    Subtracao,
    Multiplicacao,
    Divisao,
    Resto,
    Igual,
    Diferente,
    Menor,
    Maior,
    MenorIgual,
    MaiorIgual,
    // operadores de bits (só entre inteiros)
    EBit,
    OuBit,
    XorBit,
    DeslocaEsq,
    DeslocaDir,
}

/// Operadores lógicos com curto-circuito.
#[derive(Clone, Copy, Debug, PartialEq, Eq, Structural)]
pub enum OpLogica {
    E,
    Ou,
    /// `??` — coalescência de nulo.
    CoalesceNulo,
}

/// Operadores unários.
#[derive(Clone, Copy, Debug, PartialEq, Eq, Structural)]
pub enum OpUnaria {
    Negacao,  // nao
    Negativo,  // -
    NaoBit,  // ~
}

/// Uma entrada de um literal de dicionário: um par `"chave": valor`.
#[derive(Debug)]
pub enum EntradaDic {
    Par(String, Expr),
}

/// Expressões: produzem um valor. Um literal decimal guarda o texto escrito.
#[derive(Debug)]
pub enum Expr {
    Inteiro(i64, Span),
    Decimal(String, Span),
    Texto(String, Span),
    Booleano(bool, Span),
    Nulo(Span),
    Isto(Span),
    Base(Span),
    Lista(Vec<Expr>, Span),
    Dicionario(Vec<EntradaDic>, Span),
    Variavel(String, Span),
    Indice { alvo: Box<Expr>, indice: Box<Expr>, span: Span },
    Acesso { alvo: Box<Expr>, membro: String, span: Span },
    AtribIndice { alvo: Box<Expr>, indice: Box<Expr>, valor: Box<Expr>, span: Span },
    AtribCampo { alvo: Box<Expr>, membro: String, valor: Box<Expr>, span: Span },
    /// `novo Classe(args)`; a classe é um nome ou um acesso qualificado (`geo.Ponto`).
    Novo { classe: Box<Expr>, args: Vec<Expr>, span: Span },
    Unaria { op: OpUnaria, expr: Box<Expr>, span: Span },
    Binaria { op: OpBinaria, esq: Box<Expr>, dir: Box<Expr>, span: Span },
    Logica { op: OpLogica, esq: Box<Expr>, dir: Box<Expr>, span: Span },
    Ternario { condicao: Box<Expr>, entao: Box<Expr>, senao: Box<Expr>, span: Span },
    Atribuicao { nome: String, valor: Box<Expr>, span: Span },
    Chamada { alvo: Box<Expr>, args: Vec<Expr>, span: Span },
    FuncaoAnon { params: Vec<Parametro>, corpo: Vec<Cmd>, span: Span },
}

/// Um parâmetro de função: nome, valor padrão opcional e se é variádico (...).
#[derive(Debug)]
pub struct Parametro {
    pub nome: String,
    pub padrao: Option<Expr>,
    pub variadico: bool,
}

/// Definição de um método ou construtor dentro de uma classe.
#[derive(Debug)]
pub struct MetodoDef {
    pub nome: String,
    pub params: Vec<Parametro>,
    pub corpo: Vec<Cmd>,
}

/// Um ramo `caso` do `escolha`: um ou mais valores e o corpo a executar quando
/// o valor escolhido é igual a algum deles.
#[derive(Debug)]
pub struct CasoEscolha {
    pub valores: Vec<Expr>,
    pub corpo: Vec<Cmd>,
}

/// Comandos e declarações: executam ações.
#[derive(Debug)]
pub enum Cmd {
    DeclClasse {
        nome: String,
        superclasse: Option<String>,
        construtor: Option<MetodoDef>,
        metodos: Vec<MetodoDef>,
        metodos_estaticos: Vec<MetodoDef>,
        campos_estaticos: Vec<(String, Expr)>,
        span: Span,
    },
    DeclVar { nome: String, valor: Expr, constante: bool, span: Span },
    /// desempacotamento: `var a, b = 1, 2` ou `var a, b = umaLista`
    DeclVarMulti { nomes: Vec<String>, valores: Vec<Expr>, constante: bool, span: Span },
    /// reatribuição múltipla: `a, b = b, a`
    AtribMulti { nomes: Vec<String>, valores: Vec<Expr>, span: Span },
    DeclFuncao { nome: String, params: Vec<Parametro>, corpo: Vec<Cmd>, span: Span },
    Se { condicao: Expr, entao: Vec<Cmd>, senao: Option<Vec<Cmd>> },
    Enquanto { condicao: Expr, corpo: Vec<Cmd> },
    /// `para i de a ate b [passo p]`; sem passo, o incremento é 1.
    ParaNumerico { variavel: String, de: Expr, ate: Expr, passo: Option<Expr>, corpo: Vec<Cmd> },
    ParaCada { variavel: String, iteravel: Expr, corpo: Vec<Cmd> },
    Retorne(Option<Expr>, Span),
    Pare(Span),
    Continue(Span),
    Tente { corpo: Vec<Cmd>, erro_nome: String, captura: Vec<Cmd>, finalmente: Option<Vec<Cmd>> },
    Lance(Expr, Span),
    Escolha { valor: Expr, casos: Vec<CasoEscolha>, padrao: Option<Vec<Cmd>> },
    Importe { caminho: String, alias: Option<String>, span: Span },
    Expressao(Expr),
}

// ---- Programas bem formados ----
//
// `pare` e `continue` só valem dentro de um laço da mesma função, e `retorne`
// só vale dentro de uma função. O corpo de uma função começa fora de laço. E
// toda função (nomeada, anônima ou método) tem uma lista de parâmetros válida.

/// Uma lista de parâmetros válida: os obrigatórios vêm antes dos que têm valor
/// padrão, e o variádico (se houver) é o último e não tem valor padrão.
pub open spec fn parametros_validos(ps: Seq<Parametro>) -> bool {
    &&& forall|i: int| 0 <= i < ps.len() - 1 ==> !(#[trigger] ps[i]).variadico
    &&& forall|i: int| 0 <= i < ps.len() && (#[trigger] ps[i]).variadico ==> ps[i].padrao is None
    &&& forall|i: int, j: int|
        0 <= i < j < ps.len() && (#[trigger] ps[i]).padrao is Some && !(#[trigger] ps[j]).variadico
            ==> ps[j].padrao is Some
}

/// Toda função contida na expressão tem o corpo bem colocado e parâmetros
/// válidos.
pub open spec fn expr_ok(e: Expr) -> bool
    decreases e,
{
    match e {
        Expr::Lista(itens, _) => forall|i: int| 0 <= i < itens@.len() ==> expr_ok(#[trigger] itens@[i]),
        Expr::Dicionario(pares, _) => forall|i: int|
            0 <= i < pares@.len() ==> match #[trigger] pares@[i] {
                EntradaDic::Par(_, v) => expr_ok(v),
            },
        Expr::Indice { alvo, indice, .. } => expr_ok(*alvo) && expr_ok(*indice),
        Expr::Acesso { alvo, .. } => expr_ok(*alvo),
        Expr::AtribIndice { alvo, indice, valor, .. } => expr_ok(*alvo) && expr_ok(*indice)
            && expr_ok(*valor),
        Expr::AtribCampo { alvo, valor, .. } => expr_ok(*alvo) && expr_ok(*valor),
        Expr::Novo { classe, args, .. } => expr_ok(*classe) && forall|i: int|
            0 <= i < args@.len() ==> expr_ok(#[trigger] args@[i]),
        Expr::Unaria { expr, .. } => expr_ok(*expr),
        Expr::Binaria { esq, dir, .. } => expr_ok(*esq) && expr_ok(*dir),
        Expr::Logica { esq, dir, .. } => expr_ok(*esq) && expr_ok(*dir),
        Expr::Ternario { condicao, entao, senao, .. } => expr_ok(*condicao) && expr_ok(*entao)
            && expr_ok(*senao),
        Expr::Atribuicao { valor, .. } => expr_ok(*valor),
        Expr::Chamada { alvo, args, .. } => expr_ok(*alvo) && forall|i: int|
            0 <= i < args@.len() ==> expr_ok(#[trigger] args@[i]),
        Expr::FuncaoAnon { params, corpo, .. } => (forall|i: int|
            0 <= i < params@.len() ==> param_ok(#[trigger] params@[i])) && parametros_validos(
            params@,
        ) && forall|i: int| 0 <= i < corpo@.len() ==> cmd_ok(#[trigger] corpo@[i], false, true),
        _ => true,
    }
}

/// O valor padrão do parâmetro, se houver, é uma expressão bem colocada.
pub open spec fn param_ok(p: Parametro) -> bool
    decreases p,
{
    match p.padrao {
        Some(e) => expr_ok(e),
        None => true,
    }
}

/// Um método: parâmetros válidos e corpo de função bem colocado.
pub open spec fn metodo_ok(m: MetodoDef) -> bool
    decreases m,
{
    (forall|i: int| 0 <= i < m.params@.len() ==> param_ok(#[trigger] m.params@[i]))
        && parametros_validos(m.params@) && forall|
        i: int,
    |
        0 <= i < m.corpo@.len() ==> cmd_ok(#[trigger] m.corpo@[i], false, true)
}

/// Todos os comandos do bloco estão bem colocados no contexto dado.
pub open spec fn bloco_ok(cs: Seq<Cmd>, laco: bool, funcao: bool) -> bool
    decreases cs,
{
    forall|i: int| 0 <= i < cs.len() ==> cmd_ok(#[trigger] cs[i], laco, funcao)
}

/// O comando está bem colocado: `laco` diz se está dentro de um laço da mesma
/// função; `funcao`, se está dentro de uma função.
pub open spec fn cmd_ok(c: Cmd, laco: bool, funcao: bool) -> bool
    decreases c,
{
    match c {
        Cmd::DeclClasse { construtor, metodos, metodos_estaticos, campos_estaticos, .. } => {
            &&& match construtor {
                Some(m) => metodo_ok(m),
                None => true,
            }
            &&& forall|i: int| 0 <= i < metodos@.len() ==> metodo_ok(#[trigger] metodos@[i])
            &&& forall|i: int|
                0 <= i < metodos_estaticos@.len() ==> metodo_ok(#[trigger] metodos_estaticos@[i])
            &&& forall|i: int|
                0 <= i < campos_estaticos@.len() ==> expr_ok((#[trigger] campos_estaticos@[i]).1)
        },
        Cmd::DeclVar { valor, .. } => expr_ok(valor),
        Cmd::DeclVarMulti { valores, .. } => forall|i: int|
            0 <= i < valores@.len() ==> expr_ok(#[trigger] valores@[i]),
        Cmd::AtribMulti { valores, .. } => forall|i: int|
            0 <= i < valores@.len() ==> expr_ok(#[trigger] valores@[i]),
        Cmd::DeclFuncao { params, corpo, .. } => (forall|i: int|
            0 <= i < params@.len() ==> param_ok(#[trigger] params@[i])) && parametros_validos(
            params@,
        ) && forall|i: int| 0 <= i < corpo@.len() ==> cmd_ok(#[trigger] corpo@[i], false, true),
        Cmd::Se { condicao, entao, senao } => {
            &&& expr_ok(condicao)
            &&& forall|i: int| 0 <= i < entao@.len() ==> cmd_ok(#[trigger] entao@[i], laco, funcao)
            &&& match senao {
                Some(s) => forall|i: int| 0 <= i < s@.len() ==> cmd_ok(#[trigger] s@[i], laco, funcao),
                None => true,
            }
        },
        Cmd::Enquanto { condicao, corpo } => expr_ok(condicao) && forall|i: int|
            0 <= i < corpo@.len() ==> cmd_ok(#[trigger] corpo@[i], true, funcao),
        Cmd::ParaNumerico { de, ate, passo, corpo, .. } => {
            &&& expr_ok(de)
            &&& expr_ok(ate)
            &&& match passo {
                Some(p) => expr_ok(p),
                None => true,
            }
            &&& forall|i: int| 0 <= i < corpo@.len() ==> cmd_ok(#[trigger] corpo@[i], true, funcao)
        },
        Cmd::ParaCada { iteravel, corpo, .. } => expr_ok(iteravel) && forall|i: int|
            0 <= i < corpo@.len() ==> cmd_ok(#[trigger] corpo@[i], true, funcao),
        Cmd::Retorne(e, _) => funcao && match e {
            Some(v) => expr_ok(v),
            None => true,
        },
        Cmd::Pare(_) => laco,
        Cmd::Continue(_) => laco,
        Cmd::Tente { corpo, captura, finalmente, .. } => {
            &&& forall|i: int| 0 <= i < corpo@.len() ==> cmd_ok(#[trigger] corpo@[i], laco, funcao)
            &&& forall|i: int|
                0 <= i < captura@.len() ==> cmd_ok(#[trigger] captura@[i], laco, funcao)
            &&& match finalmente {
                Some(f) => forall|i: int| 0 <= i < f@.len() ==> cmd_ok(#[trigger] f@[i], laco, funcao),
                None => true,
            }
        },
        Cmd::Lance(e, _) => expr_ok(e),
        Cmd::Escolha { valor, casos, padrao } => {
            &&& expr_ok(valor)
            &&& forall|i: int| 0 <= i < casos@.len() ==> caso_ok(#[trigger] casos@[i], laco, funcao)
            &&& match padrao {
                Some(p) => forall|i: int| 0 <= i < p@.len() ==> cmd_ok(#[trigger] p@[i], laco, funcao),
                None => true,
            }
        },
        Cmd::Importe { .. } => true,
        Cmd::Expressao(e) => expr_ok(e),
    }
}

/// Um ramo do `escolha` bem colocado.
pub open spec fn caso_ok(c: CasoEscolha, laco: bool, funcao: bool) -> bool
    decreases c,
{
    (forall|i: int| 0 <= i < c.valores@.len() ==> expr_ok(#[trigger] c.valores@[i])) && forall|
        i: int,
    |
        0 <= i < c.corpo@.len() ==> cmd_ok(#[trigger] c.corpo@[i], laco, funcao)
}

/// O span (posição) de uma expressão.
pub open spec fn span_de(e: Expr) -> Span {
    match e {
        Expr::Inteiro(_, s) => s,
        Expr::Decimal(_, s) => s,
        Expr::Texto(_, s) => s,
        Expr::Booleano(_, s) => s,
        Expr::Nulo(s) => s,
        Expr::Isto(s) => s,
        Expr::Base(s) => s,
        Expr::Lista(_, s) => s,
        Expr::Dicionario(_, s) => s,
        Expr::Variavel(_, s) => s,
        Expr::Indice { span, .. } => span,
        Expr::Acesso { span, .. } => span,
        Expr::AtribIndice { span, .. } => span,
        Expr::AtribCampo { span, .. } => span,
        Expr::Novo { span, .. } => span,
        Expr::Unaria { span, .. } => span,
        Expr::Binaria { span, .. } => span,
        Expr::Logica { span, .. } => span,
        Expr::Ternario { span, .. } => span,
        Expr::Atribuicao { span, .. } => span,
        Expr::Chamada { span, .. } => span,
        Expr::FuncaoAnon { span, .. } => span,
    }
}

/// A forma de uma expressão como valor matemático: a mesma árvore, com as
/// listas de subexpressões como sequências. Literais, nomes, `isto` e `base`
/// ficam como folhas; uma função anônima guarda as formas dos parâmetros e do
/// corpo.
pub enum ExprV {
    Folha(Expr),
    Lista(Seq<ExprV>, Span),
    Indice(Box<ExprV>, Box<ExprV>, Span),
    Acesso(Box<ExprV>, String, Span),
    AtribIndice(Box<ExprV>, Box<ExprV>, Box<ExprV>, Span),
    AtribCampo(Box<ExprV>, String, Box<ExprV>, Span),
    Unaria(OpUnaria, Box<ExprV>, Span),
    Binaria(OpBinaria, Box<ExprV>, Box<ExprV>, Span),
    Logica(OpLogica, Box<ExprV>, Box<ExprV>, Span),
    Ternario(Box<ExprV>, Box<ExprV>, Box<ExprV>, Span),
    Atribuicao(String, Box<ExprV>, Span),
    Chamada(Box<ExprV>, Seq<ExprV>, Span),
    Dicionario(Seq<(String, ExprV)>, Span),
    Novo(Box<ExprV>, Seq<ExprV>, Span),
    FuncaoAnon(Seq<ParamV>, Seq<CmdV>, Span),
}

/// A forma de uma expressão.
pub open spec fn vista_expr(e: Expr) -> ExprV
    decreases e,
{
    match e {
        Expr::Lista(itens, s) => ExprV::Lista(
            Seq::new(
                itens@.len(),
                |k: int|
                    if 0 <= k < itens@.len() {
                        vista_expr(itens@[k])
                    } else {
                        ExprV::Folha(Expr::Nulo(s))
                    },
            ),
            s,
        ),
        Expr::Indice { alvo, indice, span } => ExprV::Indice(
            Box::new(vista_expr(*alvo)),
            Box::new(vista_expr(*indice)),
            span,
        ),
        Expr::Acesso { alvo, membro, span } => ExprV::Acesso(Box::new(vista_expr(*alvo)), membro, span),
        Expr::AtribIndice { alvo, indice, valor, span } => ExprV::AtribIndice(
            Box::new(vista_expr(*alvo)),
            Box::new(vista_expr(*indice)),
            Box::new(vista_expr(*valor)),
            span,
        ),
        Expr::AtribCampo { alvo, membro, valor, span } => ExprV::AtribCampo(
            Box::new(vista_expr(*alvo)),
            membro,
            Box::new(vista_expr(*valor)),
            span,
        ),
        Expr::Unaria { op, expr, span } => ExprV::Unaria(op, Box::new(vista_expr(*expr)), span),
        Expr::Binaria { op, esq, dir, span } => ExprV::Binaria(
            op,
            Box::new(vista_expr(*esq)),
            Box::new(vista_expr(*dir)),
            span,
        ),
        Expr::Logica { op, esq, dir, span } => ExprV::Logica(
            op,
            Box::new(vista_expr(*esq)),
            Box::new(vista_expr(*dir)),
            span,
        ),
        Expr::Ternario { condicao, entao, senao, span } => ExprV::Ternario(
            Box::new(vista_expr(*condicao)),
            Box::new(vista_expr(*entao)),
            Box::new(vista_expr(*senao)),
            span,
        ),
        Expr::Atribuicao { nome, valor, span } => ExprV::Atribuicao(nome, Box::new(vista_expr(*valor)), span),
        Expr::Chamada { alvo, args, span } => ExprV::Chamada(
            Box::new(vista_expr(*alvo)),
            Seq::new(
                args@.len(),
                |k: int|
                    if 0 <= k < args@.len() {
                        vista_expr(args@[k])
                    } else {
                        ExprV::Folha(Expr::Nulo(span))
                    },
            ),
            span,
        ),
        Expr::Dicionario(pares, s) => ExprV::Dicionario(
            Seq::new(
                pares@.len(),
                |k: int|
                    if 0 <= k < pares@.len() {
                        match pares@[k] {
                            EntradaDic::Par(c, v) => (c, vista_expr(v)),
                        }
                    } else {
                        arbitrary()
                    },
            ),
            s,
        ),
        Expr::Novo { classe, args, span } => ExprV::Novo(
            Box::new(vista_expr(*classe)),
            Seq::new(
                args@.len(),
                |k: int|
                    if 0 <= k < args@.len() {
                        vista_expr(args@[k])
                    } else {
                        ExprV::Folha(Expr::Nulo(span))
                    },
            ),
            span,
        ),
        Expr::FuncaoAnon { params, corpo, span } => ExprV::FuncaoAnon(vista_params(params), vista_cmds(corpo), span),
        _ => ExprV::Folha(e),
    }
}

/// A forma de um parâmetro.
pub open spec fn vista_param(p: Parametro) -> ParamV
    decreases p,
{
    ParamV {
        nome: p.nome,
        padrao: match p.padrao {
            Some(e) => Some(vista_expr(e)),
            None => None,
        },
        variadico: p.variadico,
    }
}

/// As formas de uma lista de parâmetros.
pub open spec fn vista_params(ps: Vec<Parametro>) -> Seq<ParamV>
    decreases ps,
{
    Seq::new(ps@.len(), |k: int| if 0 <= k < ps@.len() { vista_param(ps@[k]) } else { arbitrary() })
}

/// As formas de uma lista de comandos.
pub open spec fn vista_cmds(cs: Vec<Cmd>) -> Seq<CmdV>
    decreases cs,
{
    Seq::new(cs@.len(), |k: int| if 0 <= k < cs@.len() { vista_cmd(cs@[k]) } else { arbitrary() })
}

/// A forma dos parâmetros e do corpo de um método.
pub open spec fn vista_corpo(m: MetodoDef) -> CorpoV
    decreases m,
{
    CorpoV { params: vista_params(m.params), corpo: vista_cmds(m.corpo) }
}

/// As formas dos métodos de uma classe, com os nomes.
pub open spec fn vista_metodos(ms: Vec<MetodoDef>) -> Seq<(String, CorpoV)>
    decreases ms,
{
    Seq::new(ms@.len(), |k: int| if 0 <= k < ms@.len() { (ms@[k].nome, vista_corpo(ms@[k])) } else { arbitrary() })
}

/// As formas de uma lista de expressões.
pub open spec fn vista_valores(v: Vec<Expr>) -> Seq<ExprV>
    decreases v,
{
    Seq::new(v@.len(), |k: int| if 0 <= k < v@.len() { vista_expr(v@[k]) } else { arbitrary() })
}

/// Os campos estáticos de uma classe, com as formas dos valores.
pub open spec fn vista_campos(v: Vec<(String, Expr)>) -> Seq<(String, ExprV)>
    decreases v,
{
    Seq::new(v@.len(), |k: int| if 0 <= k < v@.len() { (v@[k].0, vista_expr(v@[k].1)) } else { arbitrary() })
}

/// A forma de um ramo `caso`: os valores e o corpo.
pub open spec fn vista_caso(c: CasoEscolha) -> (Seq<ExprV>, Seq<CmdV>)
    decreases c,
{
    (vista_valores(c.valores), vista_cmds(c.corpo))
}

/// As formas dos ramos `caso` de um `escolha`.
pub open spec fn vista_casos(v: Vec<CasoEscolha>) -> Seq<(Seq<ExprV>, Seq<CmdV>)>
    decreases v,
{
    Seq::new(v@.len(), |k: int| if 0 <= k < v@.len() { vista_caso(v@[k]) } else { arbitrary() })
}

/// A forma de um comando: a mesma árvore, com as listas como sequências.
pub open spec fn vista_cmd(c: Cmd) -> CmdV
    decreases c,
{
    match c {
        Cmd::Expressao(x) => CmdV::Expressao(vista_expr(x)),
        Cmd::DeclVar { nome, valor, constante, span } => CmdV::DeclVar { nome, valor: vista_expr(valor), constante, span },
        Cmd::Se { condicao, entao, senao } => CmdV::Se(
            vista_expr(condicao),
            vista_cmds(entao),
            match senao {
                Some(x) => Some(vista_cmds(x)),
                None => None,
            },
        ),
        Cmd::Enquanto { condicao, corpo } => CmdV::Enquanto(vista_expr(condicao), vista_cmds(corpo)),
        Cmd::ParaNumerico { variavel, de, ate, passo, corpo } => CmdV::ParaNumerico {
            variavel,
            de: vista_expr(de),
            ate: vista_expr(ate),
            passo: match passo {
                Some(x) => Some(vista_expr(x)),
                None => None,
            },
            corpo: vista_cmds(corpo),
        },
        Cmd::ParaCada { variavel, iteravel, corpo } => CmdV::ParaCada {
            variavel,
            iteravel: vista_expr(iteravel),
            corpo: vista_cmds(corpo),
        },
        Cmd::Retorne(x, s) => CmdV::Retorne(
            match x {
                Some(e) => Some(vista_expr(e)),
                None => None,
            },
            s,
        ),
        Cmd::Pare(s) => CmdV::Pare(s),
        Cmd::Continue(s) => CmdV::Continue(s),
        Cmd::Lance(x, s) => CmdV::Lance(vista_expr(x), s),
        Cmd::DeclFuncao { nome, params, corpo, span } => CmdV::DeclFuncao {
            nome,
            params: vista_params(params),
            corpo: vista_cmds(corpo),
            span,
        },
        Cmd::Tente { corpo, erro_nome, captura, finalmente } => CmdV::Tente {
            corpo: vista_cmds(corpo),
            erro_nome,
            captura: vista_cmds(captura),
            finalmente: match finalmente {
                Some(x) => Some(vista_cmds(x)),
                None => None,
            },
        },
        Cmd::DeclClasse { nome, superclasse, construtor, metodos, metodos_estaticos, campos_estaticos, span } => CmdV::DeclClasse {
            nome,
            superclasse,
            membros: MembrosV {
                construtor: match construtor {
                    Some(m) => Some(vista_corpo(m)),
                    None => None,
                },
                metodos: vista_metodos(metodos),
                estaticos: vista_metodos(metodos_estaticos),
                campos: vista_campos(campos_estaticos),
            },
            span,
        },
        Cmd::Escolha { valor, casos, padrao } => CmdV::Escolha {
            valor: vista_expr(valor),
            ramos: RamosV {
                casos: vista_casos(casos),
                padrao: match padrao {
                    Some(x) => Some(vista_cmds(x)),
                    None => None,
                },
            },
        },
        Cmd::DeclVarMulti { nomes, valores, constante, span } => CmdV::DeclVarMulti {
            nomes: nomes@,
            valores: vista_valores(valores),
            constante,
            span,
        },
        Cmd::AtribMulti { nomes, valores, span } => CmdV::AtribMulti {
            nomes: nomes@,
            valores: vista_valores(valores),
            span,
        },
        Cmd::Importe { caminho, alias, span } => CmdV::Importe { caminho, alias, span },
    }
}

/// As formas dos pares de um dicionário.
pub open spec fn vistas_pares(v: Seq<EntradaDic>) -> Seq<(String, ExprV)> {
    Seq::new(
        v.len(),
        |k: int|
            match v[k] {
                EntradaDic::Par(c, x) => (c, vista_expr(x)),
            },
    )
}

/// As formas de uma sequência de expressões.
pub open spec fn vistas_expr(v: Seq<Expr>) -> Seq<ExprV> {
    Seq::new(v.len(), |k: int| vista_expr(v[k]))
}

/// O span de uma expressão, lido da sua forma.
pub open spec fn span_vista(v: ExprV) -> Span {
    match v {
        ExprV::Folha(e) => span_de(e),
        ExprV::Lista(_, s) => s,
        ExprV::Indice(_, _, s) => s,
        ExprV::Acesso(_, _, s) => s,
        ExprV::AtribIndice(_, _, _, s) => s,
        ExprV::AtribCampo(_, _, _, s) => s,
        ExprV::Unaria(_, _, s) => s,
        ExprV::Binaria(_, _, _, s) => s,
        ExprV::Logica(_, _, _, s) => s,
        ExprV::Ternario(_, _, _, s) => s,
        ExprV::Atribuicao(_, _, s) => s,
        ExprV::Chamada(_, _, s) => s,
        ExprV::Dicionario(_, s) => s,
        ExprV::Novo(_, _, s) => s,
        ExprV::FuncaoAnon(_, _, s) => s,
    }
}

/// A forma guarda o span da expressão.
pub broadcast proof fn lema_span_vista(e: Expr)
    ensures
        #[trigger] span_vista(vista_expr(e)) == span_de(e),
{
}

/// A forma de uma lista literal é a lista das formas dos itens.
pub proof fn lema_vista_lista(itens: Vec<Expr>, s: Span)
    ensures
        vista_expr(Expr::Lista(itens, s)) == ExprV::Lista(vistas_expr(itens@), s),
{
    let v = vista_expr(Expr::Lista(itens, s))->Lista_0;
    assert(v =~= vistas_expr(itens@));
}

/// A forma de uma chamada é a do alvo com as formas dos argumentos.
pub proof fn lema_vista_chamada(alvo: Expr, args: Vec<Expr>, s: Span)
    ensures
        vista_expr(Expr::Chamada { alvo: Box::new(alvo), args, span: s }) == ExprV::Chamada(
            Box::new(vista_expr(alvo)),
            vistas_expr(args@),
            s,
        ),
{
    let v = vista_expr(Expr::Chamada { alvo: Box::new(alvo), args, span: s })->Chamada_1;
    assert(v =~= vistas_expr(args@));
}

/// A forma de um dicionário literal é a sequência das formas dos pares.
pub proof fn lema_vista_dicionario(pares: Vec<EntradaDic>, s: Span)
    ensures
        vista_expr(Expr::Dicionario(pares, s)) == ExprV::Dicionario(vistas_pares(pares@), s),
{
    let v = vista_expr(Expr::Dicionario(pares, s))->Dicionario_0;
    assert(v =~= vistas_pares(pares@));
}

/// A forma de um `novo` é a da classe com as formas dos argumentos.
pub proof fn lema_vista_novo(classe: Expr, args: Vec<Expr>, s: Span)
    ensures
        vista_expr(Expr::Novo { classe: Box::new(classe), args, span: s }) == ExprV::Novo(
            Box::new(vista_expr(classe)),
            vistas_expr(args@),
            s,
        ),
{
    let v = vista_expr(Expr::Novo { classe: Box::new(classe), args, span: s })->Novo_1;
    assert(v =~= vistas_expr(args@));
}

impl Expr {
    /// O span (posição) desta expressão, para diagnósticos.
    pub fn span(&self) -> (s: Span)
        ensures
            s == span_de(*self),
    {
        match self {
            Expr::Inteiro(_, s) => *s,
            Expr::Decimal(_, s) => *s,
            Expr::Texto(_, s) => *s,
            Expr::Booleano(_, s) => *s,
            Expr::Nulo(s) => *s,
            Expr::Isto(s) => *s,
            Expr::Base(s) => *s,
            Expr::Lista(_, s) => *s,
            Expr::Dicionario(_, s) => *s,
            Expr::Variavel(_, s) => *s,
            Expr::Indice { span, .. } => *span,
            Expr::Acesso { span, .. } => *span,
            Expr::AtribIndice { span, .. } => *span,
            Expr::AtribCampo { span, .. } => *span,
            Expr::Novo { span, .. } => *span,
            Expr::Unaria { span, .. } => *span,
            Expr::Binaria { span, .. } => *span,
            Expr::Logica { span, .. } => *span,
            Expr::Ternario { span, .. } => *span,
            Expr::Atribuicao { span, .. } => *span,
            Expr::Chamada { span, .. } => *span,
            Expr::FuncaoAnon { span, .. } => *span,
        }
    }
}

// ---- Cópias profundas (preservam a boa colocação do controle de fluxo) ----

/// `b` está bem colocado em todo contexto em que `a` está.
pub open spec fn preserva_cmd(a: Cmd, b: Cmd) -> bool {
    &&& (cmd_ok(a, false, false) ==> cmd_ok(b, false, false))
    &&& (cmd_ok(a, false, true) ==> cmd_ok(b, false, true))
    &&& (cmd_ok(a, true, false) ==> cmd_ok(b, true, false))
    &&& (cmd_ok(a, true, true) ==> cmd_ok(b, true, true))
}

pub open spec fn preserva_caso(a: CasoEscolha, b: CasoEscolha) -> bool {
    &&& (caso_ok(a, false, false) ==> caso_ok(b, false, false))
    &&& (caso_ok(a, false, true) ==> caso_ok(b, false, true))
    &&& (caso_ok(a, true, false) ==> caso_ok(b, true, false))
    &&& (caso_ok(a, true, true) ==> caso_ok(b, true, true))
}

fn copiar_exprs(v: &Vec<Expr>) -> (r: Vec<Expr>)
    ensures
        r@.len() == v@.len(),
        forall|i: int| 0 <= i < r@.len() ==> expr_ok(v@[i]) ==> expr_ok(#[trigger] r@[i]),
        vistas_expr(r@) == vistas_expr(v@),
        vista_valores(r) == vista_valores(*v),
    decreases v, 0nat,
{
    let mut r: Vec<Expr> = Vec::new();
    let mut i: usize = 0;
    while i < v.len()
        invariant
            i <= v@.len(),
            r@.len() == i,
            forall|j: int| 0 <= j < i ==> expr_ok(v@[j]) ==> expr_ok(#[trigger] r@[j]),
            forall|j: int| 0 <= j < i ==> vista_expr(#[trigger] r@[j]) == vista_expr(v@[j]),
        decreases v@.len() - i,
    {
        r.push(copiar_expr(&v[i]));
        i = i + 1;
    }
    assert(vistas_expr(r@) =~= vistas_expr(v@));
    assert(vista_valores(r) =~= vista_valores(*v));
    r
}

fn copiar_opt_expr(e: &Option<Expr>) -> (r: Option<Expr>)
    ensures
        r is Some <==> e is Some,
        r is Some ==> expr_ok(e->0) ==> expr_ok(r->0),
        r is Some ==> vista_expr(r->0) == vista_expr(e->0),
    decreases e, 0nat,
{
    match e {
        Some(x) => Some(copiar_expr(x)),
        None => None,
    }
}


fn copiar_expr(e: &Expr) -> (r: Expr)
    ensures
        expr_ok(*e) ==> expr_ok(r),
        vista_expr(r) == vista_expr(*e),
    decreases e, 0nat,
{
    match e {
        Expr::Inteiro(n, s) => Expr::Inteiro(*n, *s),
        Expr::Decimal(t, s) => Expr::Decimal(t.clone(), *s),
        Expr::Texto(t, s) => Expr::Texto(t.clone(), *s),
        Expr::Booleano(b, s) => Expr::Booleano(*b, *s),
        Expr::Nulo(s) => Expr::Nulo(*s),
        Expr::Isto(s) => Expr::Isto(*s),
        Expr::Base(s) => Expr::Base(*s),
        Expr::Lista(itens, s) => {
            let w = copiar_exprs(itens);
            assert(forall|i: int| 0 <= i < w@.len() ==> expr_ok(itens@[i]) ==> expr_ok(#[trigger] w@[i]));
            proof {
                lema_vista_lista(w, *s);
                lema_vista_lista(*itens, *s);
            }
            Expr::Lista(w, *s)
        },
        Expr::Dicionario(pares, s) => {
            let w = copiar_pares(pares);
            proof {
                lema_vista_dicionario(w, *s);
                lema_vista_dicionario(*pares, *s);
            }
            Expr::Dicionario(w, *s)
        },
        Expr::Variavel(n, s) => Expr::Variavel(n.clone(), *s),
        Expr::Indice { alvo, indice, span } => Expr::Indice {
            alvo: Box::new(copiar_expr(alvo)),
            indice: Box::new(copiar_expr(indice)),
            span: *span,
        },
        Expr::Acesso { alvo, membro, span } => Expr::Acesso {
            alvo: Box::new(copiar_expr(alvo)),
            membro: membro.clone(),
            span: *span,
        },
        Expr::AtribIndice { alvo, indice, valor, span } => Expr::AtribIndice {
            alvo: Box::new(copiar_expr(alvo)),
            indice: Box::new(copiar_expr(indice)),
            valor: Box::new(copiar_expr(valor)),
            span: *span,
        },
        Expr::AtribCampo { alvo, membro, valor, span } => Expr::AtribCampo {
            alvo: Box::new(copiar_expr(alvo)),
            membro: membro.clone(),
            valor: Box::new(copiar_expr(valor)),
            span: *span,
        },
        Expr::Novo { classe, args, span } => {
            let c = copiar_expr(classe);
            let a = copiar_exprs(args);
            proof {
                lema_vista_novo(c, a, *span);
                lema_vista_novo(**classe, *args, *span);
            }
            Expr::Novo { classe: Box::new(c), args: a, span: *span }
        },
        Expr::Unaria { op, expr, span } => Expr::Unaria {
            op: *op,
            expr: Box::new(copiar_expr(expr)),
            span: *span,
        },
        Expr::Binaria { op, esq, dir, span } => Expr::Binaria {
            op: *op,
            esq: Box::new(copiar_expr(esq)),
            dir: Box::new(copiar_expr(dir)),
            span: *span,
        },
        Expr::Logica { op, esq, dir, span } => Expr::Logica {
            op: *op,
            esq: Box::new(copiar_expr(esq)),
            dir: Box::new(copiar_expr(dir)),
            span: *span,
        },
        Expr::Ternario { condicao, entao, senao, span } => Expr::Ternario {
            condicao: Box::new(copiar_expr(condicao)),
            entao: Box::new(copiar_expr(entao)),
            senao: Box::new(copiar_expr(senao)),
            span: *span,
        },
        Expr::Atribuicao { nome, valor, span } => Expr::Atribuicao {
            nome: nome.clone(),
            valor: Box::new(copiar_expr(valor)),
            span: *span,
        },
        Expr::Chamada { alvo, args, span } => {
            let c = copiar_expr(alvo);
            let a = copiar_exprs(args);
            proof {
                lema_vista_chamada(c, a, *span);
                lema_vista_chamada(**alvo, *args, *span);
            }
            Expr::Chamada { alvo: Box::new(c), args: a, span: *span }
        },
        Expr::FuncaoAnon { params, corpo, span } => Expr::FuncaoAnon {
            params: copiar_params(params),
            corpo: copiar_cmds(corpo),
            span: *span,
        },
    }
}

fn copiar_pares(v: &Vec<EntradaDic>) -> (r: Vec<EntradaDic>)
    ensures
        r@.len() == v@.len(),
        vistas_pares(r@) == vistas_pares(v@),
        forall|j: int|
            0 <= j < r@.len() ==> match (#[trigger] r@[j], v@[j]) {
                (EntradaDic::Par(_, a), EntradaDic::Par(_, b)) => expr_ok(b) ==> expr_ok(a),
            },
    decreases v, 0nat,
{
    let mut r: Vec<EntradaDic> = Vec::new();
    let mut i: usize = 0;
    while i < v.len()
        invariant
            i <= v@.len(),
            r@.len() == i,
            forall|j: int|
                0 <= j < i ==> match (#[trigger] r@[j], v@[j]) {
                    (EntradaDic::Par(_, a), EntradaDic::Par(_, b)) => expr_ok(b) ==> expr_ok(a),
                },
            forall|j: int|
                0 <= j < i ==> match (#[trigger] r@[j], v@[j]) {
                    (EntradaDic::Par(ka, a), EntradaDic::Par(kb, b)) => ka == kb && vista_expr(a) == vista_expr(b),
                },
        decreases v@.len() - i,
    {
        match &v[i] {
            EntradaDic::Par(k, x) => {
                r.push(EntradaDic::Par(k.clone(), copiar_expr(x)));
            },
        }
        i = i + 1;
    }
    assert(vistas_pares(r@) =~= vistas_pares(v@)) by {
        assert forall|j: int| 0 <= j < r@.len() implies #[trigger] vistas_pares(r@)[j] == vistas_pares(v@)[j] by {
            let _ = r@[j];
        }
    }
    r
}

fn copiar_campos(v: &Vec<(String, Expr)>) -> (r: Vec<(String, Expr)>)
    ensures
        r@.len() == v@.len(),
        forall|j: int| 0 <= j < r@.len() ==> expr_ok(v@[j].1) ==> expr_ok((#[trigger] r@[j]).1),
        forall|j: int| 0 <= j < r@.len() ==> (#[trigger] r@[j]).0 == v@[j].0 && vista_expr(r@[j].1) == vista_expr(v@[j].1),
        vista_campos(r) == vista_campos(*v),
    decreases v, 0nat,
{
    let mut r: Vec<(String, Expr)> = Vec::new();
    let mut i: usize = 0;
    while i < v.len()
        invariant
            i <= v@.len(),
            r@.len() == i,
            forall|j: int| 0 <= j < i ==> expr_ok(v@[j].1) ==> expr_ok((#[trigger] r@[j]).1),
            forall|j: int| 0 <= j < i ==> (#[trigger] r@[j]).0 == v@[j].0 && vista_expr(r@[j].1) == vista_expr(v@[j].1),
        decreases v@.len() - i,
    {
        let (k, x) = &v[i];
        r.push((k.clone(), copiar_expr(x)));
        i = i + 1;
    }
    assert(vista_campos(r) =~= vista_campos(*v));
    r
}

fn copiar_casos(v: &Vec<CasoEscolha>) -> (r: Vec<CasoEscolha>)
    ensures
        r@.len() == v@.len(),
        forall|j: int| 0 <= j < r@.len() ==> preserva_caso(v@[j], #[trigger] r@[j]),
        forall|j: int| 0 <= j < r@.len() ==> mesma_vista_caso(v@[j], #[trigger] r@[j]),
        vista_casos(r) == vista_casos(*v),
    decreases v, 0nat,
{
    let mut r: Vec<CasoEscolha> = Vec::new();
    let mut i: usize = 0;
    while i < v.len()
        invariant
            i <= v@.len(),
            r@.len() == i,
            forall|j: int| 0 <= j < i ==> preserva_caso(v@[j], #[trigger] r@[j]),
            forall|j: int| 0 <= j < i ==> mesma_vista_caso(v@[j], #[trigger] r@[j]),
        decreases v@.len() - i,
    {
        let novo = copiar_caso(&v[i]);
        r.push(novo);
        i = i + 1;
    }
    proof {
        assert forall|j: int| 0 <= j < r@.len() implies vista_caso(#[trigger] r@[j]) == vista_caso(v@[j]) by {
            assert(vista_valores(r@[j].valores) =~= vista_valores(v@[j].valores));
        }
        assert(vista_casos(r) =~= vista_casos(*v));
    }
    r
}

fn copiar_caso(c: &CasoEscolha) -> (r: CasoEscolha)
    ensures
        preserva_caso(*c, r),
        mesma_vista_caso(*c, r),
    decreases c, 0nat,
{
    let r = CasoEscolha { valores: copiar_exprs(&c.valores), corpo: copiar_cmds(&c.corpo) };
    proof {
        assert forall|m: int| 0 <= m < r.valores@.len() implies vista_expr(#[trigger] r.valores@[m]) == vista_expr(
            c.valores@[m],
        ) by {
            assert(vistas_expr(r.valores@)[m] == vistas_expr(c.valores@)[m]);
        }
    }
    r
}

/// Os valores e o corpo dos dois ramos têm as mesmas formas.
pub open spec fn mesma_vista_caso(a: CasoEscolha, b: CasoEscolha) -> bool {
    &&& a.valores@.len() == b.valores@.len()
    &&& forall|m: int| 0 <= m < a.valores@.len() ==> vista_expr(#[trigger] b.valores@[m]) == vista_expr(a.valores@[m])
    &&& vista_cmds(b.corpo) == vista_cmds(a.corpo)
}

fn copiar_params(v: &Vec<Parametro>) -> (r: Vec<Parametro>)
    ensures
        r@.len() == v@.len(),
        forall|i: int| 0 <= i < r@.len() ==> param_ok(v@[i]) ==> param_ok(#[trigger] r@[i]),
        forall|i: int|
            0 <= i < r@.len() ==> (#[trigger] r@[i]).variadico == v@[i].variadico && (r@[i].padrao is Some
                <==> v@[i].padrao is Some),
        parametros_validos(v@) ==> parametros_validos(r@),
        vista_params(r) == vista_params(*v),
    decreases v, 0nat,
{
    let mut r: Vec<Parametro> = Vec::new();
    let mut i: usize = 0;
    while i < v.len()
        invariant
            i <= v@.len(),
            r@.len() == i,
            forall|j: int| 0 <= j < i ==> param_ok(v@[j]) ==> param_ok(#[trigger] r@[j]),
            forall|j: int|
                0 <= j < i ==> (#[trigger] r@[j]).variadico == v@[j].variadico && (r@[j].padrao is Some
                    <==> v@[j].padrao is Some),
            forall|j: int| 0 <= j < i ==> vista_param(#[trigger] r@[j]) == vista_param(v@[j]),
        decreases v@.len() - i,
    {
        let p = &v[i];
        r.push(Parametro { nome: p.nome.clone(), padrao: copiar_opt_expr(&p.padrao), variadico: p.variadico });
        i = i + 1;
    }
    proof {
        assert(vista_params(r) =~= vista_params(*v));
        if parametros_validos(v@) {
            assert forall|a: int, b: int|
                0 <= a < b < r@.len() && (#[trigger] r@[a]).padrao is Some && !(#[trigger] r@[b]).variadico
                    implies r@[b].padrao is Some by {
                assert(v@[a].padrao is Some && !v@[b].variadico);
            }
        }
    }
    r
}

fn copiar_cmds(v: &Vec<Cmd>) -> (r: Vec<Cmd>)
    ensures
        r@.len() == v@.len(),
        forall|i: int| 0 <= i < r@.len() ==> preserva_cmd(v@[i], #[trigger] r@[i]),
        vista_cmds(r) == vista_cmds(*v),
    decreases v, 0nat,
{
    let mut r: Vec<Cmd> = Vec::new();
    let mut i: usize = 0;
    while i < v.len()
        invariant
            i <= v@.len(),
            r@.len() == i,
            forall|j: int| 0 <= j < i ==> preserva_cmd(v@[j], #[trigger] r@[j]),
            forall|j: int| 0 <= j < i ==> vista_cmd(#[trigger] r@[j]) == vista_cmd(v@[j]),
        decreases v@.len() - i,
    {
        r.push(copiar_cmd(&v[i]));
        i = i + 1;
    }
    assert(vista_cmds(r) =~= vista_cmds(*v));
    r
}

fn copiar_opt_cmds(v: &Option<Vec<Cmd>>) -> (r: Option<Vec<Cmd>>)
    ensures
        r is Some <==> v is Some,
        r is Some ==> r->0@.len() == v->0@.len(),
        r is Some ==> forall|i: int| 0 <= i < r->0@.len() ==> preserva_cmd(v->0@[i], #[trigger] r->0@[i]),
        r is Some ==> vista_cmds(r->0) == vista_cmds(v->0),
    decreases v, 0nat,
{
    match v {
        Some(c) => Some(copiar_cmds(c)),
        None => None,
    }
}

fn copiar_metodo(m: &MetodoDef) -> (r: MetodoDef)
    ensures
        metodo_ok(*m) ==> metodo_ok(r),
        r.nome == m.nome,
        vista_corpo(r) == vista_corpo(*m),
    decreases m, 0nat,
{
    let r = MetodoDef { nome: m.nome.clone(), params: copiar_params(&m.params), corpo: copiar_cmds(&m.corpo) };
    assert(forall|i: int| 0 <= i < r.params@.len() ==> param_ok(m.params@[i]) ==> param_ok(#[trigger] r.params@[i]));
    assert(forall|i: int| 0 <= i < r.corpo@.len() ==> cmd_ok(m.corpo@[i], false, true) ==> cmd_ok(#[trigger] r.corpo@[i], false, true));
    r
}

fn copiar_metodos(v: &Vec<MetodoDef>) -> (r: Vec<MetodoDef>)
    ensures
        r@.len() == v@.len(),
        forall|i: int| 0 <= i < r@.len() ==> metodo_ok(v@[i]) ==> metodo_ok(#[trigger] r@[i]),
        vista_metodos(r) == vista_metodos(*v),
    decreases v, 0nat,
{
    let mut r: Vec<MetodoDef> = Vec::new();
    let mut i: usize = 0;
    while i < v.len()
        invariant
            i <= v@.len(),
            r@.len() == i,
            forall|j: int| 0 <= j < i ==> metodo_ok(v@[j]) ==> metodo_ok(#[trigger] r@[j]),
            forall|j: int| 0 <= j < i ==> (#[trigger] r@[j]).nome == v@[j].nome && vista_corpo(r@[j]) == vista_corpo(v@[j]),
        decreases v@.len() - i,
    {
        r.push(copiar_metodo(&v[i]));
        i = i + 1;
    }
    assert(vista_metodos(r) =~= vista_metodos(*v));
    r
}

/// Monta a cópia de uma declaração de classe a partir das cópias das partes.
fn montar_classe(
    nome: String,
    superclasse: Option<String>,
    construtor: Option<MetodoDef>,
    metodos: Vec<MetodoDef>,
    estaticos: Vec<MetodoDef>,
    campos: Vec<(String, Expr)>,
    span: Span,
    Ghost(c): Ghost<Cmd>,
) -> (r: Cmd)
    requires
        c matches Cmd::DeclClasse {
            nome: n,
            superclasse: s,
            construtor: k,
            metodos: m,
            metodos_estaticos: e,
            campos_estaticos: f,
            span: p,
        } && n == nome && s == superclasse && p == span && (k is Some <==> construtor is Some) && (
        k is Some ==> (metodo_ok(k->0) ==> metodo_ok(construtor->0)) && vista_corpo(construtor->0)
            == vista_corpo(k->0)) && m@.len() == metodos@.len() && (forall|i: int|
            0 <= i < m@.len() ==> metodo_ok(m@[i]) ==> metodo_ok(#[trigger] metodos@[i]))
            && vista_metodos(metodos) == vista_metodos(m) && e@.len() == estaticos@.len() && (forall|
            i: int|
            0 <= i < e@.len() ==> metodo_ok(e@[i]) ==> metodo_ok(#[trigger] estaticos@[i]))
            && vista_metodos(estaticos) == vista_metodos(e) && f@.len() == campos@.len() && (forall|
            i: int|
            0 <= i < f@.len() ==> expr_ok(f@[i].1) ==> expr_ok((#[trigger] campos@[i]).1))
            && vista_campos(campos) == vista_campos(f),
    ensures
        preserva_cmd(c, r),
        vista_cmd(r) == vista_cmd(c),
{
    Cmd::DeclClasse {
        nome,
        superclasse,
        construtor,
        metodos,
        metodos_estaticos: estaticos,
        campos_estaticos: campos,
        span,
    }
}

/// A vista de uma lista de expressões é a sequência das vistas.
pub proof fn lema_vista_valores(a: Vec<Expr>)
    ensures
        vista_valores(a) == vistas_expr(a@),
{
    assert(vista_valores(a) =~= vistas_expr(a@));
}

/// Copia uma declaração.
fn copiar_decl(c: &Cmd) -> (r: Cmd)
    requires
        c is DeclClasse || c is DeclVarMulti || c is AtribMulti || c is DeclFuncao || c is Importe || c is DeclVar,
    ensures
        preserva_cmd(*c, r),
        vista_cmd(r) == vista_cmd(*c),
    decreases c, 1nat,
{
    match c {
        Cmd::DeclClasse { nome, superclasse, construtor, metodos, metodos_estaticos, campos_estaticos, span } => {
            let cons = match construtor {
                Some(m) => Some(copiar_metodo(m)),
                None => None,
            };
            let sup = match superclasse {
                Some(s) => Some(s.clone()),
                None => None,
            };
            montar_classe(
                nome.clone(),
                sup,
                cons,
                copiar_metodos(metodos),
                copiar_metodos(metodos_estaticos),
                copiar_campos(campos_estaticos),
                *span,
                Ghost(*c),
            )
        },
        Cmd::DeclVarMulti { nomes, valores, constante, span } => {
            let vs = copiar_exprs(valores);
            Cmd::DeclVarMulti { nomes: copiar_nomes(nomes), valores: vs, constante: *constante, span: *span }
        },
        Cmd::AtribMulti { nomes, valores, span } => {
            let vs = copiar_exprs(valores);
            Cmd::AtribMulti { nomes: copiar_nomes(nomes), valores: vs, span: *span }
        },
        Cmd::DeclFuncao { nome, params, corpo, span } => Cmd::DeclFuncao {
            nome: nome.clone(),
            params: copiar_params(params),
            corpo: copiar_cmds(corpo),
            span: *span,
        },
        Cmd::Importe { caminho, alias, span } => {
            let a = match alias {
                Some(s) => Some(s.clone()),
                None => None,
            };
            Cmd::Importe { caminho: caminho.clone(), alias: a, span: *span }
        },
        Cmd::DeclVar { nome, valor, constante, span } => Cmd::DeclVar {
            nome: nome.clone(),
            valor: copiar_expr(valor),
            constante: *constante,
            span: *span,
        },
        _ => Cmd::Pare(Span { linha: 0, coluna: 0, comprimento: 0 }),
    }
}

/// Copia um comando de controle de fluxo.
fn copiar_controle(c: &Cmd) -> (r: Cmd)
    requires
        c is Se || c is Enquanto || c is ParaNumerico || c is ParaCada || c is Tente || c is Escolha,
    ensures
        preserva_cmd(*c, r),
        vista_cmd(r) == vista_cmd(*c),
    decreases c, 1nat,
{
    match c {
        Cmd::Se { condicao, entao, senao } => Cmd::Se {
            condicao: copiar_expr(condicao),
            entao: copiar_cmds(entao),
            senao: copiar_opt_cmds(senao),
        },
        Cmd::Enquanto { condicao, corpo } => Cmd::Enquanto {
            condicao: copiar_expr(condicao),
            corpo: copiar_cmds(corpo),
        },
        Cmd::ParaNumerico { variavel, de, ate, passo, corpo } => Cmd::ParaNumerico {
            variavel: variavel.clone(),
            de: copiar_expr(de),
            ate: copiar_expr(ate),
            passo: copiar_opt_expr(passo),
            corpo: copiar_cmds(corpo),
        },
        Cmd::ParaCada { variavel, iteravel, corpo } => Cmd::ParaCada {
            variavel: variavel.clone(),
            iteravel: copiar_expr(iteravel),
            corpo: copiar_cmds(corpo),
        },
        Cmd::Tente { corpo, erro_nome, captura, finalmente } => Cmd::Tente {
            corpo: copiar_cmds(corpo),
            erro_nome: erro_nome.clone(),
            captura: copiar_cmds(captura),
            finalmente: copiar_opt_cmds(finalmente),
        },
        Cmd::Escolha { valor, casos, padrao } => {
            let w = copiar_casos(casos);
            Cmd::Escolha { valor: copiar_expr(valor), casos: w, padrao: copiar_opt_cmds(padrao) }
        },
        _ => Cmd::Pare(Span { linha: 0, coluna: 0, comprimento: 0 }),
    }
}

fn copiar_cmd(c: &Cmd) -> (r: Cmd)
    ensures
        preserva_cmd(*c, r),
        vista_cmd(r) == vista_cmd(*c),
    decreases c, 2nat,
{
    match c {
        Cmd::DeclClasse { .. } => copiar_decl(c),
        Cmd::DeclVarMulti { .. } => copiar_decl(c),
        Cmd::AtribMulti { .. } => copiar_decl(c),
        Cmd::DeclFuncao { .. } => copiar_decl(c),
        Cmd::Importe { .. } => copiar_decl(c),
        Cmd::DeclVar { .. } => copiar_decl(c),
        Cmd::Se { .. } => copiar_controle(c),
        Cmd::Enquanto { .. } => copiar_controle(c),
        Cmd::ParaNumerico { .. } => copiar_controle(c),
        Cmd::ParaCada { .. } => copiar_controle(c),
        Cmd::Tente { .. } => copiar_controle(c),
        Cmd::Escolha { .. } => copiar_controle(c),
        Cmd::Retorne(e, s) => Cmd::Retorne(copiar_opt_expr(e), *s),
        Cmd::Pare(s) => Cmd::Pare(*s),
        Cmd::Continue(s) => Cmd::Continue(*s),
        Cmd::Lance(e, s) => Cmd::Lance(copiar_expr(e), *s),
        Cmd::Expressao(e) => Cmd::Expressao(copiar_expr(e)),
    }
}

fn copiar_nomes(v: &Vec<String>) -> (r: Vec<String>)
    ensures
        r@ == v@,
{
    let mut r: Vec<String> = Vec::new();
    let mut i: usize = 0;
    while i < v.len()
        invariant
            i <= v@.len(),
            r@.len() == i,
            forall|j: int| 0 <= j < i ==> #[trigger] r@[j] == v@[j],
        decreases v@.len() - i,
    {
        r.push(v[i].clone());
        i = i + 1;
    }
    assert(r@ =~= v@);
    r
}

impl Clone for Expr {
    fn clone(&self) -> (r: Self)
        ensures
            expr_ok(*self) ==> expr_ok(r),
            vista_expr(r) == vista_expr(*self),
    {
        copiar_expr(self)
    }
}

impl Clone for Cmd {
    fn clone(&self) -> (r: Self)
        ensures
            preserva_cmd(*self, r),
            vista_cmd(r) == vista_cmd(*self),
    {
        copiar_cmd(self)
    }
}

impl Clone for Parametro {
    fn clone(&self) -> (r: Self)
        ensures
            param_ok(*self) ==> param_ok(r),
            vista_param(r) == vista_param(*self),
    {
        let r = Parametro { nome: self.nome.clone(), padrao: copiar_opt_expr(&self.padrao), variadico: self.variadico };
        assert(r.padrao is Some ==> vista_expr(r.padrao->0) == vista_expr(self.padrao->0));
        r
    }
}

impl Clone for MetodoDef {
    fn clone(&self) -> (r: Self)
        ensures
            metodo_ok(*self) ==> metodo_ok(r),
            r.nome == self.nome,
            vista_corpo(r) == vista_corpo(*self),
    {
        copiar_metodo(self)
    }
}

/// Quantos parâmetros não são variádicos (os que recebem um argumento cada).
pub open spec fn fixos(ps: Seq<Parametro>) -> int
    decreases ps.len(),
{
    if ps.len() == 0 {
        0
    } else {
        fixos(ps.drop_last()) + (if ps.last().variadico { 0int } else { 1int })
    }
}

/// Quantos parâmetros são obrigatórios: nem variádicos nem com valor padrão.
pub open spec fn obrigatorios(ps: Seq<Parametro>) -> int
    decreases ps.len(),
{
    if ps.len() == 0 {
        0
    } else {
        obrigatorios(ps.drop_last()) + (if !ps.last().variadico && ps.last().padrao is None { 1int } else { 0int })
    }
}

/// Se algum parâmetro é variádico.
pub open spec fn tem_variadico(ps: Seq<Parametro>) -> bool {
    exists|k: int| 0 <= k < ps.len() && (#[trigger] ps[k]).variadico
}

/// Uma função com os parâmetros dados aceita `n` argumentos: pelo menos os
/// obrigatórios e, sem variádico, no máximo os fixos (senão, K201).
pub fn aceita_argumentos(params: &Vec<Parametro>, n: usize) -> (r: bool)
    ensures
        r == (n >= obrigatorios(params@) && (tem_variadico(params@) || n <= fixos(params@))),
{
    let mut fx: usize = 0;
    let mut ob: usize = 0;
    let mut var = false;
    let mut i: usize = 0;
    while i < params.len()
        invariant
            i <= params@.len(),
            fx == fixos(params@.take(i as int)),
            ob == obrigatorios(params@.take(i as int)),
            0 <= ob <= fx <= i,
            var == tem_variadico(params@.take(i as int)),
        decreases params@.len() - i,
    {
        proof {
            assert(params@.take(i + 1).drop_last() =~= params@.take(i as int));
        }
        let p = &params[i];
        if p.variadico {
            var = true;
            proof {
                assert(params@.take(i + 1)[i as int].variadico);
            }
        } else {
            fx = fx + 1;
            if p.padrao.is_none() {
                ob = ob + 1;
            }
            proof {
                if tem_variadico(params@.take(i + 1)) {
                    let k = choose|k: int| 0 <= k < i + 1 && (#[trigger] params@.take(i + 1)[k]).variadico;
                    assert(params@.take(i as int)[k].variadico);
                }
            }
        }
        proof {
            if var && !p.variadico {
                let k = choose|k: int| 0 <= k < i && (#[trigger] params@.take(i as int)[k]).variadico;
                assert(params@.take(i + 1)[k].variadico);
            }
        }
        i = i + 1;
    }
    proof {
        assert(params@.take(i as int) =~= params@);
    }
    n >= ob && (var || n <= fx)
}

} // verus!
